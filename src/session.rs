use vstd::prelude::*;
use vstd::string::StringSliceAdditionalSpecFns;

use crate::buffer::ReleaseGuard;
use crate::cstring::{has_null, spec_c_string, to_c_string};
use crate::error::Error;
use crate::result_code::ResultCode;

verus! {

/// What an initialization has to do.
#[derive(Debug, Clone, Copy, PartialEq, Eq, Structural)]
pub enum InitStep {
    /// The engine is already initialized: succeed without calling it.
    AlreadyInitialized,
    /// Call the engine's initialize export and hand its status to
    /// `Session::finish_init`.
    CallForeign,
}

/// How many calls of the engine's initialize export an initialization makes
/// from a session in state `initialized`.
pub open spec fn spec_init_calls(initialized: bool) -> nat {
    if initialized {
        0
    } else {
        1
    }
}

/// Whether a session is initialized after an initialization from state
/// `initialized`, where `code` is the status that the engine would report.
pub open spec fn spec_after_init(initialized: bool, code: ResultCode) -> bool {
    initialized || code == ResultCode::Success
}

/// The state that an engine session keeps of the engine: whether it has been
/// initialized through this session. Created uninitialized; it becomes
/// initialized on the first successful initialization and stays so.
#[derive(Debug)]
pub struct Session {
    initialized: bool,
}

impl Session {
    pub closed spec fn spec_initialized(&self) -> bool {
        self.initialized
    }

    /// A freshly loaded session, not yet initialized.
    pub fn new() -> (r: Session)
        ensures
            !r.spec_initialized(),
    {
        Session { initialized: false }
    }

    /// Whether the engine has been initialized through this session.
    pub fn is_initialized(&self) -> (r: bool)
        ensures
            r == self.spec_initialized(),
    {
        self.initialized
    }

    /// Decides whether an initialization has to call the engine.
    pub fn begin_init(&self) -> (r: InitStep)
        ensures
            r == InitStep::CallForeign <==> spec_init_calls(self.spec_initialized()) == 1,
    {
        if self.initialized {
            InitStep::AlreadyInitialized
        } else {
            InitStep::CallForeign
        }
    }

    /// Records the status with which the engine's initialize export returned.
    /// Success marks the session initialized; a failure leaves it as it was,
    /// so that the initialization can be tried again, and is returned.
    pub fn finish_init(&mut self, code: ResultCode) -> (r: Result<(), Error>)
        ensures
            final(self).spec_initialized() == spec_after_init(old(self).spec_initialized(), code),
            r is Ok <==> final(self).spec_initialized(),
            r matches Err(e) ==> e == Error::Foreign(code),
    {
        match code {
            ResultCode::Success => {
                self.initialized = true;
                Ok(())
            },
            e => {
                if self.initialized {
                    Ok(())
                } else {
                    Err(Error::Foreign(e))
                }
            },
        }
    }
}

/// From a fresh session, two initializations of which the first succeeds call
/// the engine's initialize export exactly once between them, and the session
/// is initialized after each.
pub proof fn lemma_init_idempotent(first: ResultCode, second: ResultCode)
    requires
        first == ResultCode::Success,
    ensures
        ({
            let s1 = spec_after_init(false, first);
            let s2 = spec_after_init(s1, second);
            &&& spec_init_calls(false) + spec_init_calls(s1) == 1
            &&& s1
            &&& s2
        }),
{
}

/// Encodes the text of a synthesis for the engine as a null-terminated C
/// string. Text with a null byte fails with `InvalidTextEncoding`, and the
/// engine must then not be called.
pub fn encode_tts_text(text: &str) -> (r: Result<Vec<u8>, Error>)
    ensures
        r is Err <==> has_null(text.spec_bytes()),
        r matches Err(e) ==> e == Error::InvalidTextEncoding,
        r matches Ok(v) ==> v@ == spec_c_string(text.spec_bytes()),
{
    match to_c_string(text) {
        Some(v) => Ok(v),
        None => Err(Error::InvalidTextEncoding),
    }
}

/// Reads the outcome of the engine's synthesize export: on success the guard
/// of the `length` bytes it allocated, which must be given back to the
/// engine's deallocator; otherwise the status, and no buffer exists.
pub fn finish_tts(code: ResultCode, length: usize) -> (r: Result<ReleaseGuard, ResultCode>)
    ensures
        r is Ok <==> code == ResultCode::Success,
        r matches Ok(g) ==> g.spec_len() == length && !g.spec_released(),
        r matches Err(e) ==> e == code,
{
    match code {
        ResultCode::Success => Ok(ReleaseGuard::new(length)),
        e => Err(e),
    }
}

/// Reads the outcome of the engine's load-model export, passing a failure
/// status through unchanged.
pub fn finish_load_model(code: ResultCode) -> (r: Result<(), ResultCode>)
    ensures
        r is Ok <==> code == ResultCode::Success,
        r matches Err(e) ==> e == code,
{
    code.into_result()
}

} // verus!
