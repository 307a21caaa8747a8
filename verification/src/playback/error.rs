//! Messages shown to the user for playback failures.

use vstd::prelude::*;

use crate::playback::pipeline::AudioPipelineError;

verus! {

/// The message shown for a pipeline failure: for now, the error's own message.
pub fn get_audio_controller_error_message(error: AudioPipelineError) -> (message: String)
    ensures
        message@ == error.message_text(),
{
    error.message()
}

} // verus!
