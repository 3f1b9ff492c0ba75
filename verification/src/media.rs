//! Helpers for documents, pictures and films. Documents and pictures are
//! not handled yet; films are handed to `ffmpeg`.

use crate::io::{CommandExit, ExitView};
use crate::text::{concat2, concat4, texts};
use vstd::prelude::*;
use vstd::string::*;

verus! {

/// Reads a document. Nothing is read yet.
pub fn parse_pdf(_path: &str) {
}

/// Works on a picture. Nothing is done yet.
pub fn process_image(_path: &str) {
}

/// The arguments with which `ffmpeg` turns one film into another.
pub open spec fn video_arguments(input_path: Seq<char>, output_path: Seq<char>) -> Seq<Seq<char>> {
    seq!["-i"@, input_path, output_path]
}

/// What the end of `ffmpeg` comes to: the film is made where the exit
/// status says success, else both outputs are the failure.
pub open spec fn video_outcome(exit: ExitView, output_path: Seq<char>) -> Result<
    Seq<char>,
    Seq<char>,
> {
    if exit.success {
        Ok("Video processed successfully: "@ + output_path)
    } else {
        Err("ffmpeg failed: "@ + exit.stdout + "\n"@ + exit.stderr)
    }
}

/// The arguments for `ffmpeg` to make `output_path` out of `input_path`.
pub fn video_command(input_path: &str, output_path: &str) -> (r: Vec<String>)
    ensures
        texts(r@) == video_arguments(input_path@, output_path@),
{
    let mut out: Vec<String> = Vec::new();
    out.push(String::from_str("-i"));
    out.push(input_path.to_owned());
    out.push(output_path.to_owned());
    assert(texts(out@) =~= video_arguments(input_path@, output_path@));
    out
}

/// What the end of `ffmpeg` comes to.
pub fn video_result(exit: &CommandExit, output_path: &str) -> (r: Result<String, String>)
    ensures
        match r {
            Ok(t) => video_outcome(exit@, output_path@) == Ok::<Seq<char>, Seq<char>>(t@),
            Err(t) => video_outcome(exit@, output_path@) == Err::<Seq<char>, Seq<char>>(t@),
        },
{
    if exit.success {
        Ok(concat2("Video processed successfully: ", output_path))
    } else {
        Err(concat4("ffmpeg failed: ", exit.stdout.as_str(), "\n", exit.stderr.as_str()))
    }
}

} // verus!
