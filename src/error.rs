use vstd::prelude::*;

verus! {

/// The ways an invocation can fail.
#[derive(Debug, Clone, Copy, PartialEq, Eq, Structural)]
pub enum InitError {
    NoCommand,
    FailedUFO,
    FailedGlif,
}

/// The short description of each failure kind.
pub open spec fn desc_of(e: InitError) -> Seq<char> {
    match e {
        InitError::NoCommand => "No command"@,
        InitError::FailedUFO => "Failed to write out UFO font"@,
        InitError::FailedGlif => "Failed to write .glif file"@,
    }
}

/// The name of each failure kind.
pub open spec fn kind_name_of(e: InitError) -> Seq<char> {
    match e {
        InitError::NoCommand => "NoCommand"@,
        InitError::FailedUFO => "FailedUFO"@,
        InitError::FailedGlif => "FailedGlif"@,
    }
}

/// The message shown for a failure: its kind, then its description in parentheses.
pub open spec fn message_of(e: InitError) -> Seq<char> {
    kind_name_of(e) + " ("@ + desc_of(e) + ")"@
}

impl InitError {
    /// The name of this failure kind.
    pub fn kind_name(&self) -> (r: &'static str)
        ensures
            r@ == kind_name_of(*self),
    {
        match self {
            InitError::NoCommand => "NoCommand",
            InitError::FailedUFO => "FailedUFO",
            InitError::FailedGlif => "FailedGlif",
        }
    }

    pub fn desc(&self) -> (r: &'static str)
        ensures
            r@ == desc_of(*self),
    {
        match self {
            InitError::NoCommand => "No command",
            InitError::FailedUFO => "Failed to write out UFO font",
            InitError::FailedGlif => "Failed to write .glif file",
        }
    }

    /// The full diagnostic line for this failure.
    pub fn message(&self) -> (r: &'static str)
        ensures
            r@ == message_of(*self),
    {
        proof {
            reveal_strlit(" (");
            reveal_strlit(")");
        }
        match self {
            InitError::NoCommand => {
                proof {
                    reveal_strlit("NoCommand");
                    reveal_strlit("No command");
                    reveal_strlit("NoCommand (No command)");
                }
                assert(message_of(*self) =~= "NoCommand (No command)"@);
                "NoCommand (No command)"
            },
            InitError::FailedUFO => {
                proof {
                    reveal_strlit("FailedUFO");
                    reveal_strlit("Failed to write out UFO font");
                    reveal_strlit("FailedUFO (Failed to write out UFO font)");
                }
                assert(message_of(*self) =~= "FailedUFO (Failed to write out UFO font)"@);
                "FailedUFO (Failed to write out UFO font)"
            },
            InitError::FailedGlif => {
                proof {
                    reveal_strlit("FailedGlif");
                    reveal_strlit("Failed to write .glif file");
                    reveal_strlit("FailedGlif (Failed to write .glif file)");
                }
                assert(message_of(*self) =~= "FailedGlif (Failed to write .glif file)"@);
                "FailedGlif (Failed to write .glif file)"
            },
        }
    }
}

/// The outcome of one invocation.
#[derive(Debug, Clone, PartialEq, Eq)]
pub enum InitResult {
    /// A glyph file was written at the given path.
    GlifOk(String),
    /// A glyph file was written to standard output.
    GlifStdoutOk,
    /// A font bundle was created at the given path.
    UfoOk(String),
    InitErr(InitError),
}

/// The success or failure that an outcome stands for.
pub open spec fn result_of(ir: InitResult) -> Result<(), InitError> {
    match ir {
        InitResult::InitErr(e) => Err(e),
        _ => Ok(()),
    }
}

/// The quoted and escaped text with which a path is shown for debugging.
pub uninterp spec fn path_debug_of(path: Seq<char>) -> Seq<char>;

/// Relies on the Debug formatting of std::path::Path: the text shown for the
/// path, which depends on the path's text alone.
#[verifier::external_body]
fn path_debug(path: &str) -> (r: String)
    ensures
        r@ == path_debug_of(path@),
{
    format!("{:?}", std::path::Path::new(path))
}

/// The text that shows an outcome: the variant with its file name, `STDOUT`
/// for standard output, the bundle's path as shown for debugging, or the
/// failure kind.
pub open spec fn describe_of(ir: InitResult) -> Seq<char> {
    match ir {
        InitResult::GlifOk(s) => "GlifOk("@ + s@ + ")"@,
        InitResult::GlifStdoutOk => "GlifStdoutOk(STDOUT)"@,
        InitResult::UfoOk(p) => "UfoOk("@ + path_debug_of(p@) + ")"@,
        InitResult::InitErr(e) => "InitError("@ + kind_name_of(e) + ")"@,
    }
}

impl InitResult {
    /// Shows the outcome for diagnostics.
    pub fn describe(&self) -> (r: String)
        ensures
            r@ == describe_of(*self),
    {
        match self {
            InitResult::GlifOk(s) => {
                let mut r = "GlifOk(".to_owned();
                r.append(s.as_str());
                r.append(")");
                r
            },
            InitResult::GlifStdoutOk => "GlifStdoutOk(STDOUT)".to_owned(),
            InitResult::UfoOk(p) => {
                let mut r = "UfoOk(".to_owned();
                let shown = path_debug(p.as_str());
                r.append(shown.as_str());
                r.append(")");
                r
            },
            InitResult::InitErr(e) => {
                let mut r = "InitError(".to_owned();
                r.append(e.kind_name());
                r.append(")");
                r
            },
        }
    }

    pub fn is_ok(&self) -> (r: bool)
        ensures
            r == (result_of(*self) is Ok),
    {
        !matches!(self, InitResult::InitErr(_))
    }

    /// Collapses the outcome into success or the failure kind.
    pub fn into_result(self) -> (r: Result<(), InitError>)
        ensures
            r == result_of(self),
    {
        match self {
            InitResult::InitErr(e) => Err(e),
            _ => Ok(()),
        }
    }
}

impl From<InitResult> for Result<(), InitError> {
    fn from(ir: InitResult) -> (r: Self) {
        ir.into_result()
    }
}

impl vstd::std_specs::convert::FromSpecImpl<InitResult> for Result<(), InitError> {
    open spec fn obeys_from_spec() -> bool {
        true
    }

    open spec fn from_spec(ir: InitResult) -> Self {
        result_of(ir)
    }
}

} // verus!
