//! Launch descriptors for the three external jobs, with their exact
//! argument vectors. The controller only decides and describes a launch;
//! spawning the process is the host's concern.

use vstd::prelude::*;
use vstd::string::StringExecFns;
use crate::channel::JobKind;
use crate::data::strings_view;
use crate::numfmt::dec_spec;
use crate::numfmt::u64_to_dec;

verus! {

/// One environment variable handed to a spawned job.
#[derive(Debug)]
pub struct EnvVar {
    pub name: String,
    pub value: String,
}

/// Everything the host needs to spawn one external job: the interpreter,
/// its argument vector, and at most one environment variable.
#[derive(Debug)]
pub struct JobLaunch {
    pub kind: JobKind,
    pub program: String,
    pub args: Vec<String>,
    pub env: Option<EnvVar>,
}

/// A generation launch also carries the roster record the host must write
/// to disk before spawning the job.
#[derive(Debug)]
pub struct GenerationLaunch {
    pub launch: JobLaunch,
    pub roster: crate::data::Company,
}

/// The argument vector of the PDF-conversion job over `folder_path`.
pub open spec fn conversion_argv(folder_path: Seq<char>, combine: bool) -> Seq<Seq<char>> {
    let base = seq!["convert_to_pdf.py"@, "--folder"@, folder_path];
    if combine {
        base.push("--combine"@)
    } else {
        base
    }
}

/// The argument vector of the Bates-stamping job.
pub open spec fn bates_argv(
    file_path: Seq<char>,
    prefix: Seq<char>,
    separator: Seq<char>,
    start: int,
    padding: int,
) -> Seq<Seq<char>> {
    seq![
        "bates_stamp.py"@,
        "--file"@,
        file_path,
        "--prefix"@,
        prefix,
        "--separator"@,
        separator,
        "--start"@,
        dec_spec(start),
        "--padding"@,
        dec_spec(padding),
    ]
}

/// The argument vector of the email-generation job; a blank topic is left
/// off the command line.
pub open spec fn generation_argv(
    files: int,
    attachments: int,
    provider: Seq<char>,
    model: Seq<char>,
    reply: int,
    forward: int,
    topic: Seq<char>,
) -> Seq<Seq<char>> {
    let base = seq![
        "generate_emails.py"@,
        "--files"@,
        dec_spec(files),
        "--attachments"@,
        dec_spec(attachments),
        "--roster"@,
        "roster.json"@,
        "--provider"@,
        provider,
        "--model"@,
        model,
        "--reply-pct"@,
        dec_spec(reply),
        "--forward-pct"@,
        dec_spec(forward),
    ];
    if topic.len() > 0 {
        base + seq!["--topic"@, topic]
    } else {
        base
    }
}

/// Builds the conversion job's argument vector.
pub fn conversion_args(folder_path: &str, combine: bool) -> (r: Vec<String>)
    ensures
        strings_view(r@) == conversion_argv(folder_path@, combine),
{
    let mut r: Vec<String> = Vec::new();
    r.push(String::from_str("convert_to_pdf.py"));
    r.push(String::from_str("--folder"));
    r.push(String::from_str(folder_path));
    if combine {
        r.push(String::from_str("--combine"));
    }
    proof {
        assert(strings_view(r@) =~= conversion_argv(folder_path@, combine));
    }
    r
}

/// Builds the Bates job's argument vector.
pub fn bates_args(
    file_path: &str,
    prefix: &str,
    separator: &str,
    start: u32,
    padding: u32,
) -> (r: Vec<String>)
    ensures
        strings_view(r@) == bates_argv(
            file_path@,
            prefix@,
            separator@,
            start as int,
            padding as int,
        ),
{
    let mut r: Vec<String> = Vec::new();
    r.push(String::from_str("bates_stamp.py"));
    r.push(String::from_str("--file"));
    r.push(String::from_str(file_path));
    r.push(String::from_str("--prefix"));
    r.push(String::from_str(prefix));
    r.push(String::from_str("--separator"));
    r.push(String::from_str(separator));
    r.push(String::from_str("--start"));
    r.push(u64_to_dec(start as u64));
    r.push(String::from_str("--padding"));
    r.push(u64_to_dec(padding as u64));
    proof {
        assert(strings_view(r@) =~= bates_argv(
            file_path@,
            prefix@,
            separator@,
            start as int,
            padding as int,
        ));
    }
    r
}

/// Builds the generation job's argument vector.
pub fn generation_args(
    files: u32,
    attachments: u32,
    provider: &str,
    model: &str,
    reply: u32,
    forward: u32,
    topic: &str,
) -> (r: Vec<String>)
    ensures
        strings_view(r@) == generation_argv(
            files as int,
            attachments as int,
            provider@,
            model@,
            reply as int,
            forward as int,
            topic@,
        ),
{
    let mut r: Vec<String> = Vec::new();
    r.push(String::from_str("generate_emails.py"));
    r.push(String::from_str("--files"));
    r.push(u64_to_dec(files as u64));
    r.push(String::from_str("--attachments"));
    r.push(u64_to_dec(attachments as u64));
    r.push(String::from_str("--roster"));
    r.push(String::from_str("roster.json"));
    r.push(String::from_str("--provider"));
    r.push(String::from_str(provider));
    r.push(String::from_str("--model"));
    r.push(String::from_str(model));
    r.push(String::from_str("--reply-pct"));
    r.push(u64_to_dec(reply as u64));
    r.push(String::from_str("--forward-pct"));
    r.push(u64_to_dec(forward as u64));
    if topic.unicode_len() > 0 {
        r.push(String::from_str("--topic"));
        r.push(String::from_str(topic));
    }
    proof {
        assert(strings_view(r@) =~= generation_argv(
            files as int,
            attachments as int,
            provider@,
            model@,
            reply as int,
            forward as int,
            topic@,
        ));
    }
    r
}

} // verus!
