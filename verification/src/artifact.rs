//! The container: a slot that is empty until `init` fills it once, and whose
//! value is afterwards read and replaced as a whole.

use crate::error::ArtifactError;
use vstd::prelude::*;

verus! {

/// What a decode's answer becomes as the result of a load.
pub open spec fn decoded_as<T>(decoded: Result<T, serde_json::Error>) -> Result<T, ArtifactError> {
    match decoded {
        Ok(value) => Ok(value),
        Err(e) => Err(ArtifactError::SerdeError(e)),
    }
}

/// `loaded` is a result that a load may have, given what reading the source
/// gave: a read error as it is, else one of the answers of `decode` on the
/// content that was read.
pub open spec fn loads_as<T, F: FnOnce(String) -> Result<T, serde_json::Error>>(
    read: Result<String, std::io::Error>,
    decode: F,
    loaded: Result<T, ArtifactError>,
) -> bool {
    match read {
        Err(e) => loaded == Err::<T, ArtifactError>(ArtifactError::IoError(e)),
        Ok(content) => exists|decoded: Result<T, serde_json::Error>|
            #[trigger] decode.ensures((content,), decoded) && loaded == decoded_as(decoded),
    }
}

/// The slot after an `init` that found it holding `before` and whose load,
/// had it been made, gave `loaded`.
pub open spec fn after_init<T>(before: Option<T>, loaded: Result<T, ArtifactError>) -> Option<T> {
    match before {
        Some(_) => before,
        None => match loaded {
            Ok(value) => Some(value),
            Err(_) => None,
        },
    }
}

/// The slot after an `update` with `new_data`: the new value alone, with
/// nothing left of what was stored before.
pub open spec fn after_update<T>(before: Option<T>, new_data: T) -> Option<T> {
    Some(new_data)
}

/// `result` is what such an `init` reports: success when the slot was
/// already filled or the load succeeded, else the load's failure wrapped as
/// an initialization error of the same kind, with the failure's text.
pub open spec fn init_reports<T>(
    before: Option<T>,
    loaded: Result<T, ArtifactError>,
    result: Result<(), ArtifactError>,
) -> bool {
    match (before, loaded) {
        (None, Err(cause)) => result matches Err(ArtifactError::InitializationError(kind, text))
            && Some(kind) == cause.kind() && cause.renders_as(text@),
        _ => result is Ok,
    }
}

/// Turns the answer of a decode into the result of a load.
pub fn decoded<T>(answer: Result<T, serde_json::Error>) -> (loaded: Result<T, ArtifactError>)
    ensures
        loaded == decoded_as(answer),
{
    match answer {
        Ok(value) => Ok(value),
        Err(e) => Err(ArtifactError::from(e)),
    }
}

/// Loads a value: passes a read error on, and otherwise decodes the content
/// that was read.
pub fn get_data<T, F: FnOnce(String) -> Result<T, serde_json::Error>>(
    read: Result<String, std::io::Error>,
    decode: F,
) -> (loaded: Result<T, ArtifactError>)
    requires
        read matches Ok(content) ==> decode.requires((content,)),
    ensures
        loads_as(read, decode, loaded),
        loaded matches Err(e) ==> e.is_load_failure(),
{
    match read {
        Err(e) => Err(ArtifactError::from(e)),
        Ok(content) => decoded(decode(content)),
    }
}

pub struct Artifact<T> {
    data: Option<T>,
}

impl<T> View for Artifact<T> {
    type V = Option<T>;

    closed spec fn view(&self) -> Option<T> {
        self.data
    }
}

impl<T> Artifact<T> {
    /// An empty container.
    pub fn new() -> (artifact: Self)
        ensures
            artifact@ is None,
    {
        Artifact { data: None }
    }

    pub fn is_initialized(&self) -> (filled: bool)
        ensures
            filled == (self@ is Some),
    {
        self.data.is_some()
    }

    /// Finishes an `init` with the result of the load: an empty slot takes
    /// the loaded value, or stays empty where the load failed; a filled slot
    /// keeps its value and `loaded` is dropped.
    pub fn install(&mut self, loaded: Result<T, ArtifactError>) -> (result: Result<
        (),
        ArtifactError,
    >)
        requires
            loaded matches Err(e) ==> e.is_load_failure(),
        ensures
            final(self)@ == after_init(old(self)@, loaded),
            init_reports(old(self)@, loaded, result),
    {
        if self.data.is_some() {
            return Ok(());
        }
        match loaded {
            Ok(value) => {
                self.data = Some(value);
                Ok(())
            },
            Err(cause) => Err(ArtifactError::initialization_failure(&cause)),
        }
    }

    /// Fills the container from what reading the source gave. A container
    /// that is already filled is left as it is and `decode` is not called.
    pub fn init<F: FnOnce(String) -> Result<T, serde_json::Error>>(
        &mut self,
        read: Result<String, std::io::Error>,
        decode: F,
    ) -> (result: Result<(), ArtifactError>)
        requires
            old(self)@ is None ==> (read matches Ok(content) ==> decode.requires((content,))),
        ensures
            old(self)@ is Some ==> final(self)@ == old(self)@ && result is Ok,
            old(self)@ is None ==> exists|loaded: Result<T, ArtifactError>|
                #[trigger] loads_as(read, decode, loaded) && final(self)@ == after_init(
                    old(self)@,
                    loaded,
                ) && init_reports(old(self)@, loaded, result),
    {
        if self.data.is_some() {
            return Ok(());
        }
        let loaded = get_data(read, decode);
        let ghost kept = loaded;
        let result = self.install(loaded);
        assert(loads_as(read, decode, kept));
        result
    }

    /// The current value.
    pub fn get(&self) -> (result: Result<&T, ArtifactError>)
        requires
            self@ is Some,
        ensures
            result matches Ok(value) && Some(*value) == self@,
    {
        Ok(self.data.as_ref().unwrap())
    }

    /// Replaces the whole value.
    pub fn update(&mut self, new_data: T) -> (result: Result<(), ArtifactError>)
        requires
            old(self)@ is Some,
        ensures
            final(self)@ == after_update(old(self)@, new_data),
            result is Ok,
    {
        self.data = Some(new_data);
        Ok(())
    }
}

} // verus!
