use vstd::prelude::*;

verus! {

/// A failure of the cluster tool: it could not be started, it exited with a
/// failure status, or its answer could not be read.
pub enum KubectlError {
    /// The tool could not be launched or waited for.
    IO,
    /// The tool exited with a failure status.
    CommandFailed,
    /// The tool's output was not valid UTF-8.
    ParseOutput,
    /// The tool's output was not the structured answer expected.
    Serde,
}

/// Every way a run can end in failure. Each is terminal: the run reports its
/// message and exits with a failure status.
pub enum MainError {
    NoContext,
    NoNamespace,
    /// The namespace of the given name has no service.
    NoService(String),
    NoPorts,
    /// An interactive chooser was aborted.
    InvalidSelection,
    KubectlFailed(KubectlError),
    /// A local file could not be read or written.
    IOError,
    /// The interrupt handler could not be installed.
    SignalSetupFailed,
}

impl KubectlError {
    /// The text of the message shown to the user for this failure.
    pub open spec fn message_text(&self) -> Seq<char> {
        match self {
            KubectlError::IO => "Could not run the cluster tool"@,
            KubectlError::CommandFailed => "Command failed"@,
            KubectlError::ParseOutput => "The cluster tool's output is not valid UTF-8"@,
            KubectlError::Serde => "The cluster tool's output could not be parsed"@,
        }
    }

    /// The message shown to the user for this failure.
    pub fn message(&self) -> (r: String)
        ensures
            r@ == self.message_text(),
    {
        match self {
            KubectlError::IO => String::from_str("Could not run the cluster tool"),
            KubectlError::CommandFailed => String::from_str("Command failed"),
            KubectlError::ParseOutput => String::from_str("The cluster tool's output is not valid UTF-8"),
            KubectlError::Serde => String::from_str("The cluster tool's output could not be parsed"),
        }
    }
}

impl MainError {
    /// The message shown to the user for this failure.
    pub fn message(&self) -> (r: String)
        ensures
            r@ == match self {
                MainError::NoContext => "No context found"@,
                MainError::NoNamespace => "No namespace found"@,
                MainError::NoService(name) => "No service found in namespace '"@ + name@ + "'"@,
                MainError::NoPorts => "No ports selected"@,
                MainError::InvalidSelection => "No valid selection"@,
                MainError::KubectlFailed(e) => e.message_text(),
                MainError::IOError => "Could not read or write a local file"@,
                MainError::SignalSetupFailed => "Could not install the interrupt handler"@,
            },
    {
        match self {
            MainError::NoContext => String::from_str("No context found"),
            MainError::NoNamespace => String::from_str("No namespace found"),
            MainError::NoService(name) => {
                let r = String::from_str("No service found in namespace '");
                let r = r.concat(name.as_str());
                r.concat("'")
            },
            MainError::NoPorts => String::from_str("No ports selected"),
            MainError::InvalidSelection => String::from_str("No valid selection"),
            MainError::KubectlFailed(e) => e.message(),
            MainError::IOError => String::from_str("Could not read or write a local file"),
            MainError::SignalSetupFailed => String::from_str("Could not install the interrupt handler"),
        }
    }
}

} // verus!
