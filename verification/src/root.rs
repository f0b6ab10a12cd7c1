use vstd::prelude::*;

use crate::paths::{join_path, join_seq};

verus! {

/// The one unrecoverable configuration error: neither the override variable
/// nor a home directory is available, so no configuration root exists.
#[derive(Clone, Copy, PartialEq, Eq, Structural, Debug)]
pub enum RootError {
    NoHomeDirectory,
}

impl RootError {
    /// The diagnostic shown to the user before the process terminates.
    pub fn message(&self) -> (r: &'static str)
        ensures
            r@ == "HOME system variable is not defined, cannot proceed"@,
    {
        "HOME system variable is not defined, cannot proceed"
    }
}

/// The configuration root implied by the two environment values: the override
/// value verbatim whenever the override variable is set (even to an empty
/// string — presence alone decides), else `<home>/.config`, else none.
pub open spec fn config_root_spec(xdg: Option<Seq<char>>, home: Option<Seq<char>>) -> Option<Seq<char>> {
    match xdg {
        Option::Some(x) => Option::Some(x),
        Option::None => match home {
            Option::Some(h) => Option::Some(join_seq(h, ".config"@)),
            Option::None => Option::None,
        },
    }
}

/// Resolves the configuration root from the override variable's value and the
/// home variable's value, as the caller read them from the process
/// environment. The directory is not required to exist yet.
pub fn get_system_config_dir_path(xdg: Option<String>, home: Option<String>) -> (r: Result<
    String,
    RootError,
>)
    ensures
        r matches Ok(p) ==> config_root_spec(xdg.deep_view(), home.deep_view()) == Some(p@),
        r matches Err(e) ==> config_root_spec(xdg.deep_view(), home.deep_view()) is None
            && e == RootError::NoHomeDirectory,
{
    match xdg {
        Option::Some(x) => Result::Ok(x),
        Option::None => match home {
            Option::Some(h) => Result::Ok(join_path(h.as_str(), ".config")),
            Option::None => Result::Err(RootError::NoHomeDirectory),
        },
    }
}

} // verus!
