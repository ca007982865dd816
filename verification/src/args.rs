//! The four arguments of an invocation.

use crate::text::texts;
use vstd::prelude::*;

verus! {

/// The arguments that the host passes: where the library lies, where
/// issues are saved, and the state of the network.
#[derive(Debug)]
pub struct Args {
    pub library_path: String,
    pub save_path: String,
    pub wifi: bool,
    pub online: bool,
}

/// Why a list of arguments was refused.
#[derive(Clone, Copy, Debug, PartialEq, Eq, Structural)]
pub enum ArgsError {
    MissingLibraryPath,
    MissingSavePath,
    MissingWifi,
    InvalidWifi,
    MissingOnline,
    InvalidOnline,
}

/// The truth value that a text writes: `true` or `false`, nothing else.
pub open spec fn flag_value(text: Seq<char>) -> Option<bool> {
    if text == "true"@ {
        Some(true)
    } else if text == "false"@ {
        Some(false)
    } else {
        None
    }
}

/// The first fault of a list of arguments, going from the left, if it has one.
pub open spec fn first_fault(args: Seq<Seq<char>>) -> Option<ArgsError> {
    if args.len() < 1 {
        Some(ArgsError::MissingLibraryPath)
    } else if args.len() < 2 {
        Some(ArgsError::MissingSavePath)
    } else if args.len() < 3 {
        Some(ArgsError::MissingWifi)
    } else if flag_value(args[2]) is None {
        Some(ArgsError::InvalidWifi)
    } else if args.len() < 4 {
        Some(ArgsError::MissingOnline)
    } else if flag_value(args[3]) is None {
        Some(ArgsError::InvalidOnline)
    } else {
        None
    }
}

/// Reads a truth value.
pub fn parse_flag(text: &str) -> (value: Option<bool>)
    ensures
        value == flag_value(text@),
{
    let owned = text.to_owned();
    if owned == "true".to_owned() {
        Some(true)
    } else if owned == "false".to_owned() {
        Some(false)
    } else {
        None
    }
}

impl Args {
    /// Reads the arguments that follow the program's name: the library
    /// path, the save path, the WiFi state and the network state. Further
    /// arguments are ignored.
    pub fn new(args: &Vec<String>) -> (result: Result<Args, ArgsError>)
        ensures
            match result {
                Ok(a) => {
                    &&& first_fault(texts(args@)) is None
                    &&& a.library_path@ == args@[0]@
                    &&& a.save_path@ == args@[1]@
                    &&& Some(a.wifi) == flag_value(args@[2]@)
                    &&& Some(a.online) == flag_value(args@[3]@)
                },
                Err(e) => first_fault(texts(args@)) == Some(e),
            },
    {
        if args.len() < 1 {
            return Err(ArgsError::MissingLibraryPath);
        }
        if args.len() < 2 {
            return Err(ArgsError::MissingSavePath);
        }
        if args.len() < 3 {
            return Err(ArgsError::MissingWifi);
        }
        let wifi = match parse_flag(args[2].as_str()) {
            Some(v) => v,
            None => {
                return Err(ArgsError::InvalidWifi);
            },
        };
        if args.len() < 4 {
            return Err(ArgsError::MissingOnline);
        }
        let online = match parse_flag(args[3].as_str()) {
            Some(v) => v,
            None => {
                return Err(ArgsError::InvalidOnline);
            },
        };
        Ok(Args { library_path: args[0].clone(), save_path: args[1].clone(), wifi, online })
    }
}

} // verus!
