use vstd::prelude::*;

verus! {

/// The failures the pump distinguishes.
///
/// `ReadFailure` and `ParseFailure` belong to one cycle: they are reported and the
/// cycle is skipped, the connection stays. `ConfigurationFailure` is the only
/// fatal class: the endpoint address could not be understood at startup.
#[derive(Clone, Copy, Debug, PartialEq, Eq, Structural)]
pub enum PumpError {
    ReadFailure,
    ParseFailure,
    ConfigurationFailure,
}

impl PumpError {
    pub open spec fn message_spec(self) -> Seq<char> {
        match self {
            PumpError::ReadFailure => "unable to read the dump file"@,
            PumpError::ParseFailure => "the dump file is not a JSON object"@,
            PumpError::ConfigurationFailure => "the endpoint address is not a valid URL"@,
        }
    }

    /// A short human-readable description.
    pub fn message(&self) -> (r: String)
        ensures
            r@ == self.message_spec(),
            r@.len() > 0,
    {
        match self {
            PumpError::ReadFailure => {
                proof {
                    reveal_strlit("unable to read the dump file");
                }
                String::from_str("unable to read the dump file")
            },
            PumpError::ParseFailure => {
                proof {
                    reveal_strlit("the dump file is not a JSON object");
                }
                String::from_str("the dump file is not a JSON object")
            },
            PumpError::ConfigurationFailure => {
                proof {
                    reveal_strlit("the endpoint address is not a valid URL");
                }
                String::from_str("the endpoint address is not a valid URL")
            },
        }
    }
}

} // verus!
