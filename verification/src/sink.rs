//! The output sink: echoes each chunk of the answer as it arrives and keeps
//! the whole answer for the output file.

use vstd::prelude::*;

use crate::completion::StreamEvent;
use crate::text::{join, joined, texts};

verus! {

/// The file that receives the complete answer.
pub const OUTPUT_FILE: &'static str = "clanker.md";

/// The line printed before the answer is written to the output file.
pub const WRITING_NOTICE: &'static str = "\n\nWriting clanker output to clanker.md...";

/// The chunks of an answer received so far, in arrival order.
#[derive(Debug)]
pub struct OutputSink {
    chunks: Vec<String>,
}

/// What is to be done after an event of the stream.
#[derive(Debug)]
pub enum SinkStep {
    /// Print `text` at once, then go on with `sink`.
    Echo { text: String, sink: OutputSink },
    /// The answer is complete: write `contents` to `file`, replacing what
    /// the file held.
    Persist { file: String, contents: String },
    /// The stream failed: what was received is dropped and no file is
    /// written.
    Abort,
}

impl View for OutputSink {
    type V = Seq<Seq<char>>;

    closed spec fn view(&self) -> Seq<Seq<char>> {
        texts(self.chunks@)
    }
}

/// The chunks written one after another.
pub open spec fn answer(chunks: Seq<Seq<char>>) -> Seq<char> {
    joined(chunks, Seq::empty())
}

/// The answer grows by each chunk as it stands: the answer of the chunks
/// received is their plain concatenation in arrival order.
pub proof fn law_answer_grows_by_chunk(chunks: Seq<Seq<char>>, chunk: Seq<char>)
    ensures
        answer(Seq::empty()) == Seq::<char>::empty(),
        answer(chunks.push(chunk)) == answer(chunks) + chunk,
{
    assert(chunks.push(chunk).drop_last() =~= chunks);
    assert(answer(chunks.push(chunk)) =~= answer(chunks) + chunk);
}

impl OutputSink {
    /// A sink that has received nothing yet.
    pub fn new() -> (sink: OutputSink)
        ensures
            sink@ == Seq::<Seq<char>>::empty(),
    {
        let sink = OutputSink { chunks: Vec::new() };
        proof {
            assert(sink@ =~= Seq::<Seq<char>>::empty());
        }
        sink
    }

    /// Takes the next event of the stream. A chunk is echoed and appended
    /// to what was received; the end of the stream asks for the whole answer
    /// to be written; a failure ends the sink with nothing to write.
    pub fn step(self, event: StreamEvent) -> (next: SinkStep)
        ensures
            match event {
                StreamEvent::Chunk(chunk) => next matches SinkStep::Echo { text, sink }
                    && text@ == chunk@ && sink@ == self@.push(chunk@),
                StreamEvent::End => next matches SinkStep::Persist { file, contents }
                    && file@ == OUTPUT_FILE@ && contents@ == answer(self@),
                StreamEvent::Failed => next is Abort,
            },
    {
        match event {
            StreamEvent::Chunk(chunk) => {
                let text = chunk.clone();
                let mut chunks = self.chunks;
                chunks.push(chunk);
                let sink = OutputSink { chunks };
                proof {
                    assert(sink@ =~= self@.push(chunk@));
                }
                SinkStep::Echo { text, sink }
            },
            StreamEvent::End => {
                let contents = join(&self.chunks, "");
                proof {
                    reveal_strlit("");
                    assert(""@ =~= Seq::<char>::empty());
                }
                SinkStep::Persist { file: String::from_str(OUTPUT_FILE), contents }
            },
            StreamEvent::Failed => SinkStep::Abort,
        }
    }
}

} // verus!
