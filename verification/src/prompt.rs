//! The request text: fixed instructions followed by the serialized tree.

use vstd::prelude::*;

use crate::text::{join, joined, texts};

verus! {

/// The task that the service is asked to carry out on the tree.
pub const INSTRUCTIONS: &'static str =
    "Analyze the following codebase for an A/D CTF service.
Describe what components it consists of, what programming languages the components use and what the service's intended purpose is.
The service likely has multiple vulnerabilities that require patches. Attempt to find said vulnerabilities. If possible, provide example patches.
Attempt to find places where flags may be stored.
For Docker compose/container files, notify if a container is privileged or otherwise has access it should not.
Be thorough and precise.";

/// The prompt for a serialized tree: the instructions, a line break, and the
/// blocks with one line break between neighbours.
pub open spec fn prompt_text(blocks: Seq<Seq<char>>) -> Seq<char> {
    INSTRUCTIONS@ + "\n"@ + joined(blocks, "\n"@)
}

/// Assembles the prompt for the blocks of a serialized tree.
pub fn assemble_prompt(blocks: &Vec<String>) -> (prompt: String)
    ensures
        prompt@ == prompt_text(texts(blocks@)),
{
    let mut prompt = String::from_str(INSTRUCTIONS);
    prompt.append("\n");
    let body = join(blocks, "\n");
    prompt.append(body.as_str());
    prompt
}

} // verus!
