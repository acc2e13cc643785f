//! The two instructions. Each is sent as the system message of a
//! conversation whose user message is the user's text.

use crate::api::client::SYSTEM_PROMPT;
use vstd::prelude::*;

verus! {

/// Frames the model as a classifier with two answers: `MUSIC` or
/// `GENERAL`.
pub const CLASSIFICATION_PROMPT: &'static str = r#"You are a music intent classifier. Determine if the user wants to SEARCH/PLAY music or just have a CONVERSATION about music.

MUSIC = User wants to find/play/search for actual music tracks
GENERAL = User wants advice, recommendations, or discussion about music

Examples:

MUSIC requests (wants actual tracks):
- "play some jazz music"
- "find me upbeat songs"
- "I want to listen to sad music"
- "search for electronic dance tracks"
- "play something energetic"

GENERAL requests (wants conversation/advice):
- "what song would you recommend when alone?"
- "what's your favorite music genre?"
- "what should I listen to when sad?"
- "can you suggest music for studying?"
- "what music helps with anxiety?"
- "tell me about jazz music"

Respond with ONLY "MUSIC" or "GENERAL" - nothing else."#;

/// Frames the model as the one who turns a music request into a search
/// phrase.
pub const REFINEMENT_PROMPT: &'static str = r#"You are a music recommendation expert. When users request specific artists with descriptors, provide actual song recommendations from that artist that match the mood/style.

For general requests without specific artists, extract search keywords.

Examples:

Specific Artist Requests:
"I want some taylor swift energetic song" → "Taylor Swift - 22, Shake It Off, ME!"
"play some sad billie eilish music" → "Billie Eilish - When The Party's Over, Ocean Eyes"
"give me upbeat bruno mars songs" → "Bruno Mars - Uptown Funk, 24K Magic, Count On Me"

General Music Requests:
"I want some chill jazz music" → "chill jazz"
"play energetic electronic music" → "energetic electronic"
"something sad and slow" → "sad slow ballad""#;

/// The two instructions are different texts, and neither is the
/// instruction of a plain conversation. Each text is spelled out once more
/// here, letter for letter, for the verifier to read.
pub proof fn lemma_instructions_differ()
    ensures
        CLASSIFICATION_PROMPT@ != REFINEMENT_PROMPT@,
        CLASSIFICATION_PROMPT@ != SYSTEM_PROMPT@,
        REFINEMENT_PROMPT@ != SYSTEM_PROMPT@,
{
    reveal_strlit(r#"You are a music intent classifier. Determine if the user wants to SEARCH/PLAY music or just have a CONVERSATION about music.

MUSIC = User wants to find/play/search for actual music tracks
GENERAL = User wants advice, recommendations, or discussion about music

Examples:

MUSIC requests (wants actual tracks):
- "play some jazz music"
- "find me upbeat songs"
- "I want to listen to sad music"
- "search for electronic dance tracks"
- "play something energetic"

GENERAL requests (wants conversation/advice):
- "what song would you recommend when alone?"
- "what's your favorite music genre?"
- "what should I listen to when sad?"
- "can you suggest music for studying?"
- "what music helps with anxiety?"
- "tell me about jazz music"

Respond with ONLY "MUSIC" or "GENERAL" - nothing else."#);
    reveal_strlit(r#"You are a music recommendation expert. When users request specific artists with descriptors, provide actual song recommendations from that artist that match the mood/style.

For general requests without specific artists, extract search keywords.

Examples:

Specific Artist Requests:
"I want some taylor swift energetic song" → "Taylor Swift - 22, Shake It Off, ME!"
"play some sad billie eilish music" → "Billie Eilish - When The Party's Over, Ocean Eyes"
"give me upbeat bruno mars songs" → "Bruno Mars - Uptown Funk, 24K Magic, Count On Me"

General Music Requests:
"I want some chill jazz music" → "chill jazz"
"play energetic electronic music" → "energetic electronic"
"something sad and slow" → "sad slow ballad""#);
    reveal_strlit("You are a helpful assistant who speak directly");
    assert(CLASSIFICATION_PROMPT@.len() != REFINEMENT_PROMPT@.len());
    assert(CLASSIFICATION_PROMPT@.len() != SYSTEM_PROMPT@.len());
    assert(REFINEMENT_PROMPT@.len() != SYSTEM_PROMPT@.len());
}

} // verus!
