use vstd::prelude::*;

verus! {

/// Everything that can go wrong while resolving paths, probing the host
/// version, or rewriting the import list.
#[derive(Debug, Clone, Copy, PartialEq, Eq, Structural)]
pub enum SwitchError {
    /// A required environment variable (`HOME`) is unset.
    EnvError,
    /// The host executable could not be started.
    LaunchError,
    /// The host's version invocation reported failure.
    NonZeroExit,
    /// Output or document text could not be parsed.
    ParseError,
    /// The import list is present but malformed at its schema location.
    SchemaError,
    /// The configuration file could not be read.
    ReadError,
    /// The configuration file could not be written back.
    WriteError,
    /// The theme directory could not be resolved.
    PathError,
    /// No configuration file or theme file was found.
    NotFoundError,
}

impl SwitchError {
    /// A short human-readable description naming the failed step, for
    /// callers that report failures.
    pub fn describe(&self) -> (r: &'static str)
        ensures
            r@.len() > 0,
            self is EnvError ==> r@ == "a required environment variable is not set"@,
            self is LaunchError ==> r@ == "could not launch the host application"@,
            self is NonZeroExit ==> r@
                == "the host version invocation returned a non-zero exit status"@,
            self is ParseError ==> r@
                == "could not parse the version output or the configuration text"@,
            self is SchemaError ==> r@ == "the import list is malformed in the configuration"@,
            self is ReadError ==> r@ == "could not read the configuration file"@,
            self is WriteError ==> r@ == "could not write the configuration file"@,
            self is PathError ==> r@ == "could not resolve the theme directory"@,
            self is NotFoundError ==> r@ == "a required file was not found"@,
    {
        let r = match self {
            SwitchError::EnvError => "a required environment variable is not set",
            SwitchError::LaunchError => "could not launch the host application",
            SwitchError::NonZeroExit => "the host version invocation returned a non-zero exit status",
            SwitchError::ParseError => "could not parse the version output or the configuration text",
            SwitchError::SchemaError => "the import list is malformed in the configuration",
            SwitchError::ReadError => "could not read the configuration file",
            SwitchError::WriteError => "could not write the configuration file",
            SwitchError::PathError => "could not resolve the theme directory",
            SwitchError::NotFoundError => "a required file was not found",
        };
        proof {
            reveal_strlit("a required environment variable is not set");
            reveal_strlit("could not launch the host application");
            reveal_strlit("the host version invocation returned a non-zero exit status");
            reveal_strlit("could not parse the version output or the configuration text");
            reveal_strlit("the import list is malformed in the configuration");
            reveal_strlit("could not read the configuration file");
            reveal_strlit("could not write the configuration file");
            reveal_strlit("could not resolve the theme directory");
            reveal_strlit("a required file was not found");
        }
        r
    }
}

} // verus!
