use vstd::prelude::*;

verus! {

/// Everything that can stop the server from starting.
#[derive(Debug, Clone, PartialEq, Eq)]
pub enum StartupError {
    /// The configuration file could not be read.
    FileIO,
    /// The configuration text is not a valid configuration document.
    Malformed,
    /// A certificate or key file is absent; carries the path that was looked up.
    MissingFile(String),
    /// The certificate/key pair could not be turned into a TLS context.
    TlsConfig,
    /// The compute device could not be opened.
    DeviceInit,
    /// A model file could not be loaded.
    ModelLoad,
    /// The text tokenizer could not be loaded.
    TokenizerLoad,
    /// A model loaded but failed to run its synthetic step.
    WarmupFailed,
    /// The codec ran without error but decoded nothing.
    EmptyOutput,
}

} // verus!
