use vstd::prelude::*;
use crate::text::{chars_of, find, first_match, has_prefix, matches_at};

verus! {

/// What the URL analyzer reports about a fetched page.
#[derive(Clone, Copy, Debug, PartialEq, Eq, Structural)]
pub enum Mode {
    Title,
    DownloadTime,
    DownloadSize,
}

impl Mode {
    /// Name of the mode as shown in the mode picker.
    pub open spec fn label_text(self) -> Seq<char> {
        match self {
            Mode::Title => "Title"@,
            Mode::DownloadTime => "Download Time"@,
            Mode::DownloadSize => "Download Size"@,
        }
    }

    /// Name of the mode as shown in the mode picker.
    pub fn label(&self) -> (r: &'static str)
        ensures
            r@ == self.label_text(),
    {
        match self {
            Mode::Title => "Title",
            Mode::DownloadTime => "Download Time",
            Mode::DownloadSize => "Download Size",
        }
    }

    /// Every mode, in picker order.
    pub fn all() -> (r: Vec<Mode>)
        ensures
            r@ == seq![Mode::Title, Mode::DownloadTime, Mode::DownloadSize],
    {
        vec![Mode::Title, Mode::DownloadTime, Mode::DownloadSize]
    }
}

/// State of the URL analyzer form.
pub struct UrlAnalyzer {
    pub url: String,
    pub secure: bool,
    pub mode: Mode,
    pub result: String,
    pub loading: bool,
}

impl UrlAnalyzer {
    /// An empty form: no URL, plain HTTP, title mode, no result, not loading.
    pub fn new() -> (r: UrlAnalyzer)
        ensures
            r.url@ == Seq::<char>::empty(),
            !r.secure,
            r.mode == Mode::Title,
            r.result@ == Seq::<char>::empty(),
            !r.loading,
    {
        UrlAnalyzer {
            url: String::new(),
            secure: false,
            mode: Mode::Title,
            result: String::new(),
            loading: false,
        }
    }

    /// Text shown under the form.
    pub open spec fn status_text(&self) -> Seq<char> {
        if self.loading {
            "Fetching..."@
        } else if self.result@.len() > 0 {
            self.result@
        } else {
            "Enter a URL and click Get"@
        }
    }

    /// Text shown under the form: a notice while loading, else the last
    /// result, else a prompt.
    pub fn status(&self) -> (r: String)
        ensures
            r@ == self.status_text(),
    {
        if self.loading {
            String::from_str("Fetching...")
        } else if self.result.as_str().unicode_len() > 0 {
            self.result.clone()
        } else {
            String::from_str("Enter a URL and click Get")
        }
    }
}

impl Default for UrlAnalyzer {
    fn default() -> (r: UrlAnalyzer)
        ensures
            r.url@ == Seq::<char>::empty(),
            !r.secure,
            r.mode == Mode::Title,
            r.result@ == Seq::<char>::empty(),
            !r.loading,
    {
        UrlAnalyzer::new()
    }
}

/// The address requested for `url`: unchanged when it already names the
/// HTTP or HTTPS scheme, else prefixed with the scheme that `secure` picks.
pub open spec fn full_url_of(url: Seq<char>, secure: bool) -> Seq<char> {
    if has_prefix(url, "http://"@) || has_prefix(url, "https://"@) {
        url
    } else if secure {
        "https://"@ + url
    } else {
        "http://"@ + url
    }
}

fn starts_with(h: &Vec<char>, p: &str) -> (r: bool)
    ensures
        r == has_prefix(h@, p@),
{
    let pv = chars_of(p);
    if pv.len() > h.len() {
        false
    } else {
        matches_at(h, &pv, 0)
    }
}

/// The address requested for `url`: unchanged when it already names the
/// HTTP or HTTPS scheme, else prefixed with the scheme that `secure` picks.
pub fn full_url(url: &str, secure: bool) -> (r: String)
    ensures
        r@ == full_url_of(url@, secure),
{
    let cs = chars_of(url);
    if starts_with(&cs, "http://") || starts_with(&cs, "https://") {
        url.to_owned()
    } else if secure {
        String::from_str("https://").concat(url)
    } else {
        String::from_str("http://").concat(url)
    }
}

/// The text between the first `<title>` and the first `</title>` of a page,
/// when both occur and the closing tag does not start before the opening
/// tag ends.
pub open spec fn title_span(body: Seq<char>) -> Option<Seq<char>> {
    let open = "<title>"@;
    match (first_match(body, open, 0), first_match(body, "</title>"@, 0)) {
        (Some(s), Some(e)) => if s + open.len() <= e {
            Some(body.subrange(s + open.len(), e))
        } else {
            None
        },
        _ => None,
    }
}

/// The text between the first `<title>` and the first `</title>` of a page,
/// when both occur and the closing tag does not start before the opening
/// tag ends.
pub fn find_title(body: &str) -> (r: Option<&str>)
    ensures
        match r {
            Some(t) => title_span(body@) == Some(t@),
            None => title_span(body@) is None,
        },
{
    let cs = chars_of(body);
    let open = chars_of("<title>");
    let close = chars_of("</title>");
    match (find(&cs, &open), find(&cs, &close)) {
        (Some(s), Some(e)) => {
            if s <= e && open.len() <= e - s {
                Some(body.substring_char(s + open.len(), e))
            } else {
                None
            }
        },
        _ => None,
    }
}

/// What `str::trim` makes of a string.
pub uninterp spec fn trim_of(s: Seq<char>) -> Seq<char>;

/// Relies on `str::trim`: leading and trailing white space removed; the
/// result depends on the characters alone.
#[verifier::external_body]
fn trim(s: &str) -> (r: &str)
    ensures
        r@ == trim_of(s@),
{
    s.trim()
}

/// The report line for a page title.
pub fn title_line(title: &str) -> (r: String)
    ensures
        r@ == "Title: "@ + title@,
{
    String::from_str("Title: ").concat(title)
}

/// The report for a fetched page in title mode.
pub open spec fn title_report_of(body: Seq<char>) -> Seq<char> {
    match title_span(body) {
        Some(t) => "Title: "@ + trim_of(t),
        None => "No <title> found"@,
    }
}

/// The report for a fetched page in title mode: its trimmed title, or a
/// notice that it has none.
pub fn title_report(body: &str) -> (r: String)
    ensures
        r@ == title_report_of(body@),
{
    match find_title(body) {
        Some(t) => title_line(trim(t)),
        None => String::from_str("No <title> found"),
    }
}

/// What `humansize::format_size` with the `DECIMAL` options makes of a byte count.
pub uninterp spec fn decimal_size_of(n: usize) -> Seq<char>;

/// Relies on `humansize::format_size(n, humansize::DECIMAL)`: the byte count
/// in SI units; the result depends on `n` alone.
#[verifier::external_body]
fn format_decimal_size(n: usize) -> (r: String)
    ensures
        r@ == decimal_size_of(n),
{
    humansize::format_size(n, humansize::DECIMAL)
}

/// The report line for a formatted size.
pub fn size_line(formatted: &str) -> (r: String)
    ensures
        r@ == "Size: "@ + formatted@,
{
    String::from_str("Size: ").concat(formatted)
}

/// The report for a fetched page in size mode.
pub fn size_report(len: usize) -> (r: String)
    ensures
        r@ == "Size: "@ + decimal_size_of(len),
{
    let formatted = format_decimal_size(len);
    size_line(formatted.as_str())
}

} // verus!
