//! The names the command line gives to algorithms and formats, the check
//! on input arguments, and the commands themselves as plain values.

use vstd::prelude::*;

use crate::strings::str_eq;
use crate::text::TextError;

verus! {

/// The signing algorithm: a keyed hash or an asymmetric signature.
#[derive(Debug, Clone, Copy, PartialEq, Eq, Structural)]
pub enum TextSignFormat {
    Blake3,
    Ed25519,
}

impl TextSignFormat {
    /// The textual name of the algorithm.
    pub open spec fn name(self) -> Seq<char> {
        match self {
            TextSignFormat::Blake3 => "blake3"@,
            TextSignFormat::Ed25519 => "ed25519"@,
        }
    }

    /// Reads an algorithm from its exact, case-sensitive name.
    pub fn from_str(s: &str) -> (r: Result<Self, TextError>)
        ensures
            s@ == "blake3"@ ==> r == Ok::<Self, TextError>(TextSignFormat::Blake3),
            s@ == "ed25519"@ ==> r == Ok::<Self, TextError>(TextSignFormat::Ed25519),
            s@ != "blake3"@ && s@ != "ed25519"@ ==> r == Err::<Self, TextError>(
                TextError::UnsupportedAlgorithm,
            ),
    {
        proof {
            reveal_strlit("blake3");
            reveal_strlit("ed25519");
            assert("blake3"@[0] != "ed25519"@[0]);
        }
        if str_eq(s, "blake3") {
            Ok(TextSignFormat::Blake3)
        } else if str_eq(s, "ed25519") {
            Ok(TextSignFormat::Ed25519)
        } else {
            Err(TextError::UnsupportedAlgorithm)
        }
    }

    pub fn as_str(&self) -> (r: &'static str)
        ensures
            r@ == self.name(),
    {
        match self {
            TextSignFormat::Blake3 => "blake3",
            TextSignFormat::Ed25519 => "ed25519",
        }
    }
}

/// The base64 alphabet: the standard one with padding, or the URL-safe one
/// without.
#[derive(Debug, Clone, Copy, PartialEq, Eq, Structural)]
pub enum Base64Format {
    Standard,
    UrlSafe,
}

impl Base64Format {
    pub open spec fn name(self) -> Seq<char> {
        match self {
            Base64Format::Standard => "standard"@,
            Base64Format::UrlSafe => "urlsafe"@,
        }
    }

    pub fn from_str(s: &str) -> (r: Result<Self, &'static str>)
        ensures
            s@ == "standard"@ ==> r == Ok::<Self, &'static str>(Base64Format::Standard),
            s@ == "urlsafe"@ ==> r == Ok::<Self, &'static str>(Base64Format::UrlSafe),
            s@ != "standard"@ && s@ != "urlsafe"@ ==> (r matches Err(e) && e@
                == "Not supported format"@),
    {
        proof {
            reveal_strlit("standard");
            reveal_strlit("urlsafe");
            assert("standard"@[0] != "urlsafe"@[0]);
        }
        if str_eq(s, "standard") {
            Ok(Base64Format::Standard)
        } else if str_eq(s, "urlsafe") {
            Ok(Base64Format::UrlSafe)
        } else {
            Err("Not supported format")
        }
    }

    pub fn as_str(&self) -> (r: &'static str)
        ensures
            r@ == self.name(),
    {
        match self {
            Base64Format::Standard => "standard",
            Base64Format::UrlSafe => "urlsafe",
        }
    }
}

/// The format a CSV file is converted to.
#[derive(Debug, Clone, Copy, PartialEq, Eq, Structural)]
pub enum OutputFormat {
    Json,
    Yaml,
}

impl OutputFormat {
    pub open spec fn name(self) -> Seq<char> {
        match self {
            OutputFormat::Json => "json"@,
            OutputFormat::Yaml => "yaml"@,
        }
    }

    pub fn from_str(s: &str) -> (r: Result<Self, &'static str>)
        ensures
            s@ == "json"@ ==> r == Ok::<Self, &'static str>(OutputFormat::Json),
            s@ == "yaml"@ ==> r == Ok::<Self, &'static str>(OutputFormat::Yaml),
            s@ != "json"@ && s@ != "yaml"@ ==> (r matches Err(e) && e@
                == "Not supported format"@),
    {
        proof {
            reveal_strlit("json");
            reveal_strlit("yaml");
            assert("json"@[0] != "yaml"@[0]);
        }
        if str_eq(s, "json") {
            Ok(OutputFormat::Json)
        } else if str_eq(s, "yaml") {
            Ok(OutputFormat::Yaml)
        } else {
            Err("Not supported format")
        }
    }

    pub fn as_str(&self) -> (r: &'static str)
        ensures
            r@ == self.name(),
    {
        match self {
            OutputFormat::Json => "json",
            OutputFormat::Yaml => "yaml",
        }
    }
}

/// Accepts an input argument that is the standard-input marker `-` or names
/// a file that exists; `exists` tells whether it does.
pub fn check_input(s: &str, exists: bool) -> (r: Result<String, &'static str>)
    ensures
        s@ == "-"@ || exists ==> (r matches Ok(t) && t@ == s@),
        !(s@ == "-"@ || exists) ==> (r matches Err(e) && e@ == "Input file not exists"@),
{
    if str_eq(s, "-") || exists {
        Ok(s.to_owned())
    } else {
        Err("Input file not exists")
    }
}

/// A parsed command line.
pub struct Opts {
    pub command: SubCommand,
}

pub enum SubCommand {
    /// Show a CSV file or convert it to another format.
    Csv(CsvOpts),
    /// Generate a password.
    GenPass(GenPassOpts),
    /// Encode or decode base64.
    Base64(Base64SubCommand),
    /// Sign or verify text, or generate a signing key.
    Text(TextSubCommand),
    /// Serve a directory over HTTP.
    Http(HttpSubCommand),
    /// Issue or check a JSON Web Token.
    Jwt(JwtSubCommand),
}

pub struct CsvOpts {
    pub input: String,
    /// The output file; by default `output.<format>`.
    pub output: Option<String>,
    pub format: OutputFormat,
}

pub struct GenPassOpts {
    pub length: u8,
    pub lowercase: bool,
    pub uppercase: bool,
    pub numbers: bool,
    pub special: bool,
}

pub enum Base64SubCommand {
    Encode(Base64EncodeOpts),
    Decode(Base64DecodeOpts),
}

pub struct Base64EncodeOpts {
    /// A file, or `-` for standard input.
    pub input: String,
    pub format: Base64Format,
}

pub struct Base64DecodeOpts {
    /// A file, or `-` for standard input.
    pub input: String,
    pub format: Base64Format,
}

pub enum TextSubCommand {
    Sign(TextSignOpts),
    Verify(TextVerifyOpts),
    GenerateKey(TextGenerateKeyOpts),
}

pub struct TextSignOpts {
    /// The message: a file, or `-` for standard input.
    pub input: String,
    /// The key file, or `-` for standard input.
    pub key: String,
    pub format: TextSignFormat,
}

pub struct TextVerifyOpts {
    /// The message: a file, or `-` for standard input.
    pub input: String,
    /// The key file, or `-` for standard input.
    pub key: String,
    pub format: TextSignFormat,
    /// The signature, in URL-safe unpadded base64.
    pub sig: String,
}

pub struct TextGenerateKeyOpts {
    pub format: TextSignFormat,
    /// The directory the key files are written to.
    pub output: String,
}

pub enum HttpSubCommand {
    Serve(HttpServeOpts),
}

pub struct HttpServeOpts {
    pub dir: String,
    pub port: u16,
}

pub enum JwtSubCommand {
    Sign(JwtSignOpts),
    Verify(JwtVerifyOpts),
}

pub struct JwtSignOpts {
    pub aud: String,
    pub sub: String,
    /// The expiry duration, such as `14d`.
    pub exp: String,
    pub key: String,
}

pub struct JwtVerifyOpts {
    pub token: String,
    pub key: String,
}

} // verus!
