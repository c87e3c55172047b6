//! The instruction that opens every turn.

use vstd::prelude::*;
use vstd::string::*;
use crate::text::{append_decimal, contains_text, decimal, occurs_at};

verus! {

/// What the instruction says before the difficulty.
pub open spec fn instruction_opening() -> Seq<char> {
    "You are simulating a life insurance prospect on a phone call. Difficulty: "@
}

/// What the instruction says between the difficulty and the transcript: the
/// rules of the role, and the shape of the JSON that the model must answer
/// with.
pub open spec fn instruction_rules() -> Seq<char> {
    " (1 easy, 2 normal, 3 hard).\n\nRules:\n- Respond as the CLIENT (short, realistic, sometimes skeptical).\n- Also include COACH feedback for the agent.\n- Output MUST be valid JSON only. No extra text.\n\nJSON schema:\n{\n  \"client\": \"string (what client says next)\",\n  \"coach\": {\n    \"score\": number 0-100,\n    \"note\": \"1 short sentence coaching\",\n    \"best\": \"a better agent response (short)\"\n  },\n  \"hangup\": boolean\n}\n\nConversation so far:\n"@
}

/// The whole instruction for a difficulty and a transcript.
pub open spec fn instruction(difficulty: u8, transcript: Seq<char>) -> Seq<char> {
    instruction_opening() + decimal(difficulty as nat) + instruction_rules() + transcript
}

/// Writes the instruction for `difficulty` and `transcript`.
pub fn system_instruction(difficulty: u8, transcript: &str) -> (r: String)
    ensures
        r@ == instruction(difficulty, transcript@),
        contains_text(r@, transcript@),
        contains_text(r@, decimal(difficulty as nat)),
{
    proof {
        lemma_instruction_embeds_inputs(difficulty, transcript@);
    }
    let mut out = String::from_str(
        "You are simulating a life insurance prospect on a phone call. Difficulty: ",
    );
    append_decimal(&mut out, difficulty as u64);
    out.append(
        " (1 easy, 2 normal, 3 hard).\n\nRules:\n- Respond as the CLIENT (short, realistic, sometimes skeptical).\n- Also include COACH feedback for the agent.\n- Output MUST be valid JSON only. No extra text.\n\nJSON schema:\n{\n  \"client\": \"string (what client says next)\",\n  \"coach\": {\n    \"score\": number 0-100,\n    \"note\": \"1 short sentence coaching\",\n    \"best\": \"a better agent response (short)\"\n  },\n  \"hangup\": boolean\n}\n\nConversation so far:\n",
    );
    out.append(transcript);
    out
}

/// The instruction holds the transcript, character for character, and the
/// decimal numeral of the difficulty.
pub proof fn lemma_instruction_embeds_inputs(difficulty: u8, transcript: Seq<char>)
    ensures
        contains_text(instruction(difficulty, transcript), transcript),
        contains_text(instruction(difficulty, transcript), decimal(difficulty as nat)),
        instruction(difficulty, transcript).len() >= transcript.len(),
        instruction(difficulty, transcript).subrange(
            instruction(difficulty, transcript).len() - transcript.len(),
            instruction(difficulty, transcript).len() as int,
        ) == transcript,
{
    let whole = instruction(difficulty, transcript);
    let numeral = decimal(difficulty as nat);
    let before = instruction_opening().len() as int;
    let after = (instruction_opening() + numeral + instruction_rules()).len() as int;
    assert(whole.subrange(before, before + numeral.len()) =~= numeral);
    assert(occurs_at(whole, numeral, before));
    assert(whole.subrange(after, after + transcript.len()) =~= transcript);
    assert(occurs_at(whole, transcript, after));
}

} // verus!
