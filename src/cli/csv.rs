use vstd::prelude::*;

use crate::bytes::str_eq;

verus! {

/// Options of `csv`.
pub struct CsvOpts {
    pub input: String,
    pub output: Option<String>,
    pub delimiter: char,
    pub no_header: bool,
    pub format: OutputFormat,
}

/// The formats a CSV file is converted to.
#[derive(Debug, Clone, Copy, PartialEq, Eq, Structural)]
pub enum OutputFormat {
    Json,
    Yaml,
}

impl OutputFormat {
    /// The name of the format, also used as the file extension.
    pub fn as_str(&self) -> (r: &'static str)
        ensures
            *self == OutputFormat::Json ==> r == "json",
            *self == OutputFormat::Yaml ==> r == "yaml",
    {
        match self {
            OutputFormat::Json => "json",
            OutputFormat::Yaml => "yaml",
        }
    }
}

/// Parses the name of an output format.
pub fn parse_output_format(value: &str) -> (r: Result<OutputFormat, &'static str>)
    ensures
        value@ == "json"@ ==> r == Ok::<OutputFormat, &'static str>(OutputFormat::Json),
        value@ == "yaml"@ ==> r == Ok::<OutputFormat, &'static str>(OutputFormat::Yaml),
        value@ != "json"@ && value@ != "yaml"@ ==> r == Err::<OutputFormat, &'static str>("invalid format"),
{
    proof {
        reveal_strlit("json");
        reveal_strlit("yaml");
        assert("json"@[0] != "yaml"@[0]);
    }
    if str_eq(value, "json") {
        Ok(OutputFormat::Json)
    } else if str_eq(value, "yaml") {
        Ok(OutputFormat::Yaml)
    } else {
        Err("invalid format")
    }
}

/// Where the converted file goes: the given name, or `output.<format>`.
pub fn output_path(output: Option<String>, format: OutputFormat) -> (r: String)
    ensures
        output matches Some(o) ==> r@ == o@,
        output is None && format == OutputFormat::Json ==> r@ == "output.json"@,
        output is None && format == OutputFormat::Yaml ==> r@ == "output.yaml"@,
{
    match output {
        Some(o) => o,
        None => match format {
            OutputFormat::Json => "output.json".to_owned(),
            OutputFormat::Yaml => "output.yaml".to_owned(),
        },
    }
}

} // verus!
