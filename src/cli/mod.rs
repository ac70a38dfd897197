use vstd::prelude::*;

use crate::bytes::str_eq;

mod b64;
mod csv;
mod http;
mod jwt;
mod pass;
mod text;

pub use b64::{B64DecodeOpts, B64EncodeOpts, B64SubCommand};
pub use csv::{output_path, parse_output_format, CsvOpts, OutputFormat};
pub use http::{
    directory_listing, listing_entries, listing_entry, HttpOpts, HttpServeOpts, HttpSubCommand,
};
pub use jwt::{
    duration_seconds, parse_duration, parse_jwt_alg, JwtAlg, JwtEncodeOpts, JwtSubCommand,
    JwtVerifyOpts,
};
pub use pass::PassOpts;
pub use text::{
    verify_chacha_key, KeyGenerateOpts, TextDecryptOpts, TextEncryptOpts, TextSignOpts,
    TextSubCommand, TextVerifyOpts,
};

verus! {

/// The command line.
pub struct Opts {
    pub cmd: SubCommand,
}

/// The tool's commands.
pub enum SubCommand {
    Csv(CsvOpts),
    Pass(PassOpts),
    B64(B64SubCommand),
    Text(TextSubCommand),
    Http(HttpSubCommand),
    Jwt(JwtSubCommand),
}

/// Relies on `Path::exists`; what is on disk is not known here.
#[verifier::external_body]
fn path_exists(input: &str) -> (r: bool) {
    std::path::Path::new(input).exists()
}

/// Relies on `Path::is_dir`; what is on disk is not known here.
#[verifier::external_body]
fn path_is_dir(input: &str) -> (r: bool) {
    std::path::Path::new(input).is_dir()
}

/// Accepts `-` (standard input) as it is, and any other name of a file that
/// exists.
pub fn check_file(input: &str, exists: bool) -> (r: Result<String, &'static str>)
    ensures
        input@ == "-"@ || exists ==> r is Ok && r->Ok_0@ == input@,
        input@ != "-"@ && !exists ==> r == Err::<String, &'static str>("file not found"),
{
    if str_eq(input, "-") || exists {
        Ok(input.to_owned())
    } else {
        Err("file not found")
    }
}

/// Accepts `-` (standard input), or the name of a file that exists.
pub fn verify_file(input: &str) -> (r: Result<String, &'static str>)
    ensures
        input@ == "-"@ ==> r is Ok && r->Ok_0@ == input@,
        r is Ok ==> r->Ok_0@ == input@,
        r is Err ==> r == Err::<String, &'static str>("file not found"),
{
    if str_eq(input, "-") {
        return check_file(input, true);
    }
    let exists = path_exists(input);
    check_file(input, exists)
}

/// Accepts the name of a directory that exists.
pub fn check_dir(input: &str, exists: bool, is_dir: bool) -> (r: Result<String, &'static str>)
    ensures
        exists && is_dir ==> r is Ok && r->Ok_0@ == input@,
        !(exists && is_dir) ==> r == Err::<String, &'static str>("path not found or not a directory"),
{
    if exists && is_dir {
        Ok(input.to_owned())
    } else {
        Err("path not found or not a directory")
    }
}

/// Accepts the name of a directory that exists.
pub fn verify_path(input: &str) -> (r: Result<String, &'static str>)
    ensures
        r is Ok ==> r->Ok_0@ == input@,
        r is Err ==> r == Err::<String, &'static str>("path not found or not a directory"),
{
    let exists = path_exists(input);
    let is_dir = path_is_dir(input);
    check_dir(input, exists, is_dir)
}

/// Accepts the name of a file that exists; there is no standard input here.
pub fn check_input_file(input: &str, exists: bool) -> (r: Result<String, &'static str>)
    ensures
        exists ==> r is Ok && r->Ok_0@ == input@,
        !exists ==> r == Err::<String, &'static str>("file not found"),
{
    if exists {
        Ok(input.to_owned())
    } else {
        Err("file not found")
    }
}

/// Accepts the name of a file that exists.
pub fn verify_input_file(input: &str) -> (r: Result<String, &'static str>)
    ensures
        r is Ok ==> r->Ok_0@ == input@,
        r is Err ==> r == Err::<String, &'static str>("file not found"),
{
    let exists = path_exists(input);
    check_input_file(input, exists)
}

} // verus!
