//! The errors of the host, and how one turns into another.

use vstd::prelude::*;

verus! {

/// What an error says, whatever its type: every error of this module that can
/// be converted into another has this as its view.
pub enum Failure {
    DeviceNotAvailable,
    BackendSpecific(Seq<char>),
}

/// An error that only this backend knows, in its own words.
#[derive(Debug)]
pub struct BackendSpecificError {
    pub description: String,
}

impl Clone for BackendSpecificError {
    fn clone(&self) -> (res: Self)
        ensures
            res == *self,
    {
        BackendSpecificError { description: self.description.clone() }
    }
}

/// What can go wrong when talking to sndio.
#[derive(Debug)]
pub enum SndioError {
    /// The requested device is no longer available. For example, it has been unplugged.
    DeviceNotAvailable,
    BackendSpecific(BackendSpecificError),
}

impl Clone for SndioError {
    fn clone(&self) -> (res: Self)
        ensures
            res == *self,
    {
        match self {
            SndioError::DeviceNotAvailable => SndioError::DeviceNotAvailable,
            SndioError::BackendSpecific(err) => SndioError::BackendSpecific(err.clone()),
        }
    }
}

impl View for SndioError {
    type V = Failure;

    open spec fn view(&self) -> Failure {
        match self {
            SndioError::DeviceNotAvailable => Failure::DeviceNotAvailable,
            SndioError::BackendSpecific(err) => Failure::BackendSpecific(err.description@),
        }
    }
}

impl SndioError {
    /// The text in which the error is shown to a user.
    pub fn message(&self) -> (text: String)
        ensures
            text@ == (match self@ {
                Failure::DeviceNotAvailable =>
                    "The requested device is no longer available. For example, it has been unplugged."@,
                Failure::BackendSpecific(description) => description,
            }),
    {
        match self {
            SndioError::DeviceNotAvailable =>
                "The requested device is no longer available. For example, it has been unplugged.".to_owned(),
            SndioError::BackendSpecific(err) => err.description.clone(),
        }
    }
}

/// Why a stream could not be built.
#[derive(Debug)]
pub enum BuildStreamError {
    DeviceNotAvailable,
    BackendSpecific { err: BackendSpecificError },
}

impl View for BuildStreamError {
    type V = Failure;

    open spec fn view(&self) -> Failure {
        match self {
            BuildStreamError::DeviceNotAvailable => Failure::DeviceNotAvailable,
            BuildStreamError::BackendSpecific { err } => Failure::BackendSpecific(err.description@),
        }
    }
}

impl From<SndioError> for BuildStreamError {
    fn from(e: SndioError) -> (res: BuildStreamError) {
        match e {
            SndioError::DeviceNotAvailable => BuildStreamError::DeviceNotAvailable,
            SndioError::BackendSpecific(bse) => BuildStreamError::BackendSpecific { err: bse },
        }
    }
}

impl vstd::std_specs::convert::FromSpecImpl<SndioError> for BuildStreamError {
    open spec fn obeys_from_spec() -> bool {
        true
    }

    open spec fn from_spec(e: SndioError) -> BuildStreamError {
        match e {
            SndioError::DeviceNotAvailable => BuildStreamError::DeviceNotAvailable,
            SndioError::BackendSpecific(bse) => BuildStreamError::BackendSpecific { err: bse },
        }
    }
}

/// Why a device has no default configuration.
#[derive(Debug)]
pub enum DefaultStreamConfigError {
    DeviceNotAvailable,
    BackendSpecific { err: BackendSpecificError },
}

impl View for DefaultStreamConfigError {
    type V = Failure;

    open spec fn view(&self) -> Failure {
        match self {
            DefaultStreamConfigError::DeviceNotAvailable => Failure::DeviceNotAvailable,
            DefaultStreamConfigError::BackendSpecific { err } =>
                Failure::BackendSpecific(err.description@),
        }
    }
}

impl From<SndioError> for DefaultStreamConfigError {
    fn from(e: SndioError) -> (res: DefaultStreamConfigError) {
        match e {
            SndioError::DeviceNotAvailable => DefaultStreamConfigError::DeviceNotAvailable,
            SndioError::BackendSpecific(bse) =>
                DefaultStreamConfigError::BackendSpecific { err: bse },
        }
    }
}

impl vstd::std_specs::convert::FromSpecImpl<SndioError> for DefaultStreamConfigError {
    open spec fn obeys_from_spec() -> bool {
        true
    }

    open spec fn from_spec(e: SndioError) -> DefaultStreamConfigError {
        match e {
            SndioError::DeviceNotAvailable => DefaultStreamConfigError::DeviceNotAvailable,
            SndioError::BackendSpecific(bse) =>
                DefaultStreamConfigError::BackendSpecific { err: bse },
        }
    }
}

/// Why a stream could not be paused.
#[derive(Debug)]
pub enum PauseStreamError {
    DeviceNotAvailable,
    BackendSpecific { err: BackendSpecificError },
}

impl View for PauseStreamError {
    type V = Failure;

    open spec fn view(&self) -> Failure {
        match self {
            PauseStreamError::DeviceNotAvailable => Failure::DeviceNotAvailable,
            PauseStreamError::BackendSpecific { err } => Failure::BackendSpecific(err.description@),
        }
    }
}

impl From<SndioError> for PauseStreamError {
    fn from(e: SndioError) -> (res: PauseStreamError) {
        match e {
            SndioError::DeviceNotAvailable => PauseStreamError::DeviceNotAvailable,
            SndioError::BackendSpecific(bse) => PauseStreamError::BackendSpecific { err: bse },
        }
    }
}

impl vstd::std_specs::convert::FromSpecImpl<SndioError> for PauseStreamError {
    open spec fn obeys_from_spec() -> bool {
        true
    }

    open spec fn from_spec(e: SndioError) -> PauseStreamError {
        match e {
            SndioError::DeviceNotAvailable => PauseStreamError::DeviceNotAvailable,
            SndioError::BackendSpecific(bse) => PauseStreamError::BackendSpecific { err: bse },
        }
    }
}

/// What befell a running stream.
#[derive(Debug)]
pub enum StreamError {
    DeviceNotAvailable,
    BackendSpecific { err: BackendSpecificError },
}

impl Clone for StreamError {
    fn clone(&self) -> (res: Self)
        ensures
            res == *self,
    {
        match self {
            StreamError::DeviceNotAvailable => StreamError::DeviceNotAvailable,
            StreamError::BackendSpecific { err } =>
                StreamError::BackendSpecific { err: err.clone() },
        }
    }
}

impl View for StreamError {
    type V = Failure;

    open spec fn view(&self) -> Failure {
        match self {
            StreamError::DeviceNotAvailable => Failure::DeviceNotAvailable,
            StreamError::BackendSpecific { err } => Failure::BackendSpecific(err.description@),
        }
    }
}

impl From<SndioError> for StreamError {
    fn from(e: SndioError) -> (res: StreamError) {
        match e {
            SndioError::DeviceNotAvailable => StreamError::DeviceNotAvailable,
            SndioError::BackendSpecific(bse) => StreamError::BackendSpecific { err: bse },
        }
    }
}

impl vstd::std_specs::convert::FromSpecImpl<SndioError> for StreamError {
    open spec fn obeys_from_spec() -> bool {
        true
    }

    open spec fn from_spec(e: SndioError) -> StreamError {
        match e {
            SndioError::DeviceNotAvailable => StreamError::DeviceNotAvailable,
            SndioError::BackendSpecific(bse) => StreamError::BackendSpecific { err: bse },
        }
    }
}

/// Why a stream could not be played.
#[derive(Debug)]
pub enum PlayStreamError {
    DeviceNotAvailable,
    BackendSpecific { err: BackendSpecificError },
}

/// Why a device has no name.
#[derive(Debug)]
pub enum DeviceNameError {
    BackendSpecific { err: BackendSpecificError },
}

/// Why the devices of a host could not be listed.
#[derive(Debug)]
pub enum DevicesError {
    BackendSpecific { err: BackendSpecificError },
}

/// The host is not to be had on this system.
#[derive(Debug)]
pub struct HostUnavailable;

/// The backend's own error with the given description.
pub fn backend_specific_error(desc: String) -> (e: SndioError)
    ensures
        e == SndioError::BackendSpecific(BackendSpecificError { description: desc }),
{
    SndioError::BackendSpecific(BackendSpecificError { description: desc })
}

/// Converting an error never changes what it says.
pub proof fn law_conversion_keeps_the_failure(e: SndioError)
    ensures
        <BuildStreamError as vstd::std_specs::convert::FromSpec<SndioError>>::from_spec(e)@ == e@,
        <DefaultStreamConfigError as vstd::std_specs::convert::FromSpec<SndioError>>::from_spec(e)@
            == e@,
        <PauseStreamError as vstd::std_specs::convert::FromSpec<SndioError>>::from_spec(e)@ == e@,
        <StreamError as vstd::std_specs::convert::FromSpec<SndioError>>::from_spec(e)@ == e@,
{
}

/// What an error says is what it holds: that the device is gone, or the
/// backend's description, to the letter.
pub proof fn law_errors_say_what_they_hold(err: BackendSpecificError)
    ensures
        SndioError::DeviceNotAvailable@ == Failure::DeviceNotAvailable,
        BuildStreamError::DeviceNotAvailable@ == Failure::DeviceNotAvailable,
        DefaultStreamConfigError::DeviceNotAvailable@ == Failure::DeviceNotAvailable,
        PauseStreamError::DeviceNotAvailable@ == Failure::DeviceNotAvailable,
        StreamError::DeviceNotAvailable@ == Failure::DeviceNotAvailable,
        SndioError::BackendSpecific(err)@ == Failure::BackendSpecific(err.description@),
        (BuildStreamError::BackendSpecific { err })@ == Failure::BackendSpecific(err.description@),
        (DefaultStreamConfigError::BackendSpecific { err })@ == Failure::BackendSpecific(
            err.description@,
        ),
        (PauseStreamError::BackendSpecific { err })@ == Failure::BackendSpecific(err.description@),
        (StreamError::BackendSpecific { err })@ == Failure::BackendSpecific(err.description@),
{
}

/// A missing device stays a missing device in every conversion, and the
/// backend's own error is handed on whole.
pub proof fn law_conversion_hands_the_error_on(err: BackendSpecificError)
    ensures
        <BuildStreamError as vstd::std_specs::convert::FromSpec<SndioError>>::from_spec(
            SndioError::DeviceNotAvailable,
        ) == BuildStreamError::DeviceNotAvailable,
        <DefaultStreamConfigError as vstd::std_specs::convert::FromSpec<SndioError>>::from_spec(
            SndioError::DeviceNotAvailable,
        ) == DefaultStreamConfigError::DeviceNotAvailable,
        <PauseStreamError as vstd::std_specs::convert::FromSpec<SndioError>>::from_spec(
            SndioError::DeviceNotAvailable,
        ) == PauseStreamError::DeviceNotAvailable,
        <StreamError as vstd::std_specs::convert::FromSpec<SndioError>>::from_spec(
            SndioError::DeviceNotAvailable,
        ) == StreamError::DeviceNotAvailable,
        <BuildStreamError as vstd::std_specs::convert::FromSpec<SndioError>>::from_spec(
            SndioError::BackendSpecific(err),
        ) == (BuildStreamError::BackendSpecific { err }),
        <DefaultStreamConfigError as vstd::std_specs::convert::FromSpec<SndioError>>::from_spec(
            SndioError::BackendSpecific(err),
        ) == (DefaultStreamConfigError::BackendSpecific { err }),
        <PauseStreamError as vstd::std_specs::convert::FromSpec<SndioError>>::from_spec(
            SndioError::BackendSpecific(err),
        ) == (PauseStreamError::BackendSpecific { err }),
        <StreamError as vstd::std_specs::convert::FromSpec<SndioError>>::from_spec(
            SndioError::BackendSpecific(err),
        ) == (StreamError::BackendSpecific { err }),
{
}

} // verus!
