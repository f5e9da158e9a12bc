use crate::error::PipelineError;
use vstd::prelude::*;

verus! {

/// One entry of the episode feed.
pub struct Episode {
    pub title: String,
    pub stream_url: String,
}

/// The settings of a run.
pub struct Config {
    pub url: String,
    pub output_dir: String,
}

/// `s` with every space replaced by an underscore.
pub open spec fn underscored(s: Seq<char>) -> Seq<char> {
    s.map_values(|c: char| if c == ' ' { '_' } else { c })
}

/// Relies on `str::replace`, which replaces every match of the pattern, here a
/// single space, by the replacement, here a single underscore.
#[verifier::external_body]
fn replace_spaces(s: &str) -> (r: String)
    ensures
        r@ == underscored(s@),
{
    s.replace(' ', "_")
}

/// Relies on `format!`, which writes the two strings one after the other.
#[verifier::external_body]
fn concat(a: &str, b: &str) -> (r: String)
    ensures
        r@ == a@ + b@,
{
    format!("{}{}", a, b)
}

impl Episode {
    /// The title given to an episode whose feed entry has none.
    pub open spec fn default_title() -> Seq<char> {
        "Unknown"@
    }

    /// An episode from the fields of its feed entry: a missing title becomes
    /// `"Unknown"`; a missing stream URL is missing data.
    pub fn from_fields(title: Option<String>, stream_url: Option<String>) -> (r: Result<Episode, PipelineError>)
        ensures
            match stream_url {
                None => r == Err::<Episode, PipelineError>(PipelineError::MissingData),
                Some(u) => r matches Ok(e) && e.stream_url == u && match title {
                    Some(t) => e.title == t,
                    None => e.title@ == Episode::default_title(),
                },
            },
    {
        match stream_url {
            None => Err(PipelineError::MissingData),
            Some(u) => {
                let t = match title {
                    Some(t) => t,
                    None => "Unknown".to_owned(),
                };
                proof {
                    reveal_strlit("Unknown");
                }
                Ok(Episode { title: t, stream_url: u })
            },
        }
    }
}

impl Config {
    /// The directory used when the configuration names none.
    pub open spec fn default_output_dir() -> Seq<char> {
        "downloads"@
    }

    /// Settings from the configuration's fields: the feed URL is required and
    /// may not be empty; the output directory defaults to `"downloads"`.
    pub fn from_fields(url: Option<String>, output_dir: Option<String>) -> (r: Result<Config, PipelineError>)
        ensures
            match url {
                None => r == Err::<Config, PipelineError>(PipelineError::MissingData),
                Some(u) => if u@.len() == 0 {
                    r == Err::<Config, PipelineError>(PipelineError::MissingData)
                } else {
                    r matches Ok(c) && c.url == u && match output_dir {
                        Some(d) => c.output_dir == d,
                        None => c.output_dir@ == Config::default_output_dir(),
                    }
                },
            },
    {
        match url {
            None => Err(PipelineError::MissingData),
            Some(u) => {
                if u.as_str().is_empty() {
                    return Err(PipelineError::MissingData);
                }
                let d = match output_dir {
                    Some(d) => d,
                    None => "downloads".to_owned(),
                };
                proof {
                    reveal_strlit("downloads");
                }
                Ok(Config { url: u, output_dir: d })
            },
        }
    }
}

/// The path of the MP3 file of the episode titled `title`:
/// `{output_dir}/{title with spaces replaced by underscores}.mp3`.
pub fn output_path(output_dir: &str, title: &str) -> (r: String)
    ensures
        r@ == output_dir@ + "/"@ + underscored(title@) + ".mp3"@,
{
    let stem = replace_spaces(title);
    let dir = concat(output_dir, "/");
    let with_stem = concat(dir.as_str(), stem.as_str());
    concat(with_stem.as_str(), ".mp3")
}

/// The arguments of the transcoder call that turns the assembled AAC stream at
/// `input` into a 128 kbit/s MP3 file at `output`.
pub fn transcoder_args(input: &str, output: &str) -> (r: Vec<String>)
    ensures
        r@.map_values(|a: String| a@) == seq![
            "-f"@,
            "aac"@,
            "-i"@,
            input@,
            "-acodec"@,
            "libmp3lame"@,
            "-b:a"@,
            "128k"@,
            output@,
        ],
{
    let mut args: Vec<String> = Vec::new();
    args.push("-f".to_owned());
    args.push("aac".to_owned());
    args.push("-i".to_owned());
    args.push(input.to_owned());
    args.push("-acodec".to_owned());
    args.push("libmp3lame".to_owned());
    args.push("-b:a".to_owned());
    args.push("128k".to_owned());
    args.push(output.to_owned());
    assert(args@.map_values(|a: String| a@) =~= seq![
        "-f"@,
        "aac"@,
        "-i"@,
        input@,
        "-acodec"@,
        "libmp3lame"@,
        "-b:a"@,
        "128k"@,
        output@,
    ]);
    args
}

} // verus!
