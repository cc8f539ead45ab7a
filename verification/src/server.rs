//! Decisions of the board's web server: the route of each served file, the
//! content type announced for it, and how a posted command is answered.
use vstd::prelude::*;
use vstd::string::*;

verus! {

/// `suffix` is a suffix of `s`.
pub open spec fn has_suffix(s: Seq<u8>, suffix: Seq<u8>) -> bool {
    suffix.len() <= s.len() && s.subrange(s.len() - suffix.len(), s.len() as int) == suffix
}

/// Whether the bytes `s` end with the bytes `suffix`.
pub fn bytes_end_with(s: &[u8], suffix: &[u8]) -> (r: bool)
    ensures
        r == has_suffix(s@, suffix@),
{
    if suffix.len() > s.len() {
        return false;
    }
    let n = s.len();
    let off = n - suffix.len();
    let mut i: usize = 0;
    while i < suffix.len()
        invariant
            off + suffix@.len() == s@.len(),
            n == s@.len(),
            i <= suffix@.len(),
            forall|j: int| 0 <= j < i ==> s@[off + j] == suffix@[j],
        decreases suffix@.len() - i,
    {
        if s[off + i] != suffix[i] {
            assert(s@.subrange(off as int, s@.len() as int)[i as int] != suffix@[i as int]);
            return false;
        }
        i = i + 1;
    }
    assert(s@.subrange(off as int, s@.len() as int) =~= suffix@);
    true
}

/// The content type announced for a served file, chosen by the extension of
/// its path (as UTF-8 bytes); anything unrecognised is served as HTML.
pub open spec fn content_type_spec(path: Seq<u8>) -> Seq<char> {
    if has_suffix(path, ".js".spec_bytes()) {
        "application/javascript"@
    } else if has_suffix(path, ".wasm".spec_bytes()) {
        "application/wasm"@
    } else if has_suffix(path, ".html".spec_bytes()) {
        "text/html"@
    } else if has_suffix(path, ".htm".spec_bytes()) {
        "text/html"@
    } else if has_suffix(path, ".css".spec_bytes()) {
        "text/css"@
    } else {
        "text/html"@
    }
}

/// The content type announced for the file at `path` (see [`content_type_spec`]).
pub fn content_type(path: &str) -> (r: &'static str)
    ensures
        r@ == content_type_spec(path.spec_bytes()),
        has_suffix(path.spec_bytes(), ".js".spec_bytes()) ==> r@ == "application/javascript"@,
        has_suffix(path.spec_bytes(), ".wasm".spec_bytes()) ==> r@ == "application/wasm"@,
        has_suffix(path.spec_bytes(), ".html".spec_bytes()) ==> r@ == "text/html"@,
        has_suffix(path.spec_bytes(), ".htm".spec_bytes()) ==> r@ == "text/html"@,
        has_suffix(path.spec_bytes(), ".css".spec_bytes()) ==> r@ == "text/css"@,
{
    proof {
        lemma_extension_bytes();
        lemma_content_type_by_extension(path.spec_bytes());
    }
    let p = path.as_bytes();
    if bytes_end_with(p, ".js".as_bytes()) {
        "application/javascript"
    } else if bytes_end_with(p, ".wasm".as_bytes()) {
        "application/wasm"
    } else if bytes_end_with(p, ".html".as_bytes()) {
        "text/html"
    } else if bytes_end_with(p, ".htm".as_bytes()) {
        "text/html"
    } else if bytes_end_with(p, ".css".as_bytes()) {
        "text/css"
    } else {
        "text/html"
    }
}

/// The bytes of the extension literals used by [`content_type_spec`].
proof fn lemma_extension_bytes()
    ensures
        ".js".spec_bytes() == seq![46u8, 106u8, 115u8],
        ".wasm".spec_bytes() == seq![46u8, 119u8, 97u8, 115u8, 109u8],
        ".html".spec_bytes() == seq![46u8, 104u8, 116u8, 109u8, 108u8],
        ".htm".spec_bytes() == seq![46u8, 104u8, 116u8, 109u8],
        ".css".spec_bytes() == seq![46u8, 99u8, 115u8, 115u8],
{
    broadcast use vstd::string::is_ascii_spec_bytes;
    reveal_strlit(".js");
    reveal_strlit(".wasm");
    reveal_strlit(".html");
    reveal_strlit(".htm");
    reveal_strlit(".css");
    assert(is_ascii(".js"));
    assert(is_ascii(".wasm"));
    assert(is_ascii(".html"));
    assert(is_ascii(".htm"));
    assert(is_ascii(".css"));
    assert(".js".spec_bytes() =~= seq![46u8, 106u8, 115u8]);
    assert(".wasm".spec_bytes() =~= seq![46u8, 119u8, 97u8, 115u8, 109u8]);
    assert(".html".spec_bytes() =~= seq![46u8, 104u8, 116u8, 109u8, 108u8]);
    assert(".htm".spec_bytes() =~= seq![46u8, 104u8, 116u8, 109u8]);
    assert(".css".spec_bytes() =~= seq![46u8, 99u8, 115u8, 115u8]);
}

/// The bytes at the end of `s` are those of its suffix `suffix`.
proof fn lemma_suffix_bytes(s: Seq<u8>, suffix: Seq<u8>)
    requires
        has_suffix(s, suffix),
    ensures
        forall|k: int| 0 <= k < suffix.len() ==> s[s.len() - suffix.len() + k] == #[trigger] suffix[k],
{
    assert forall|k: int| 0 <= k < suffix.len() implies s[s.len() - suffix.len() + k] == #[trigger] suffix[k] by {
        assert(s.subrange(s.len() - suffix.len(), s.len() as int)[k] == suffix[k]);
    }
}

/// The content type of a file follows its extension alone, whatever comes
/// before it (directories, hashes, any length): a path ending in `.js` is
/// JavaScript, `.wasm` WebAssembly, `.html` or `.htm` HTML and `.css` a
/// stylesheet; a path with none of these endings is served as HTML.
pub proof fn lemma_content_type_by_extension(path: Seq<u8>)
    ensures
        // ".js"
        has_suffix(path, seq![46u8, 106u8, 115u8]) ==> content_type_spec(path) == "application/javascript"@,
        // ".wasm"
        has_suffix(path, seq![46u8, 119u8, 97u8, 115u8, 109u8]) ==> content_type_spec(path) == "application/wasm"@,
        // ".html"
        has_suffix(path, seq![46u8, 104u8, 116u8, 109u8, 108u8]) ==> content_type_spec(path) == "text/html"@,
        // ".htm"
        has_suffix(path, seq![46u8, 104u8, 116u8, 109u8]) ==> content_type_spec(path) == "text/html"@,
        // ".css"
        has_suffix(path, seq![46u8, 99u8, 115u8, 115u8]) ==> content_type_spec(path) == "text/css"@,
        !has_suffix(path, seq![46u8, 106u8, 115u8]) && !has_suffix(path, seq![46u8, 119u8, 97u8, 115u8, 109u8])
            && !has_suffix(path, seq![46u8, 104u8, 116u8, 109u8, 108u8]) && !has_suffix(
            path,
            seq![46u8, 104u8, 116u8, 109u8],
        ) && !has_suffix(path, seq![46u8, 99u8, 115u8, 115u8]) ==> content_type_spec(path) == "text/html"@,
{
    lemma_extension_bytes();
    let js = seq![46u8, 106u8, 115u8];
    let wasm = seq![46u8, 119u8, 97u8, 115u8, 109u8];
    let html = seq![46u8, 104u8, 116u8, 109u8, 108u8];
    let htm = seq![46u8, 104u8, 116u8, 109u8];
    let css = seq![46u8, 99u8, 115u8, 115u8];
    let n = path.len() as int;
    if has_suffix(path, wasm) {
        lemma_suffix_bytes(path, wasm);
        assert(path[n - 3] == wasm[2]);
    }
    if has_suffix(path, html) {
        lemma_suffix_bytes(path, html);
        assert(path[n - 1] == html[4]);
    }
    if has_suffix(path, htm) {
        lemma_suffix_bytes(path, htm);
        assert(path[n - 1] == htm[3]);
        assert(path[n - 4] == htm[0]);
    }
    if has_suffix(path, css) {
        lemma_suffix_bytes(path, css);
        assert(path[n - 3] == css[1]);
        assert(path[n - 1] == css[3]);
        assert(path[n - 4] == css[0]);
    }
    if has_suffix(path, js) {
        lemma_suffix_bytes(path, js);
        assert(path[n - 3] == js[0]);
        assert(path[n - 1] == js[2]);
    }
}

/// The route under which the file at `path` is served: the path behind a
/// slash (the index page, at the empty path, is served at `/`).
pub fn route_for(path: &str) -> (r: String)
    ensures
        r@ == "/"@ + path@,
{
    let mut r = "/".to_owned();
    r.append(path);
    r
}

/// How the handling of a posted command went.
#[derive(Clone, Copy, Debug, PartialEq, Eq, Structural)]
pub enum CommandOutcome {
    /// The body was not a command.
    Unparsable,
    /// The command was understood but carrying it out failed.
    Failed,
    /// The command was carried out.
    Handled,
}

/// The status line of a response: code and optional reason phrase.
#[derive(Clone, Copy, Debug, PartialEq, Eq)]
pub struct HttpStatus {
    pub code: u16,
    pub reason: Option<&'static str>,
}

/// The answer to a posted command: 200 "OK" when it was carried out, 500 when
/// carrying it out failed, 400 "Unable to parse command" when it was not a command.
pub fn command_reply(outcome: CommandOutcome) -> (r: HttpStatus)
    ensures
        outcome == CommandOutcome::Handled ==> r.code == 200 && (r.reason matches Some(m) && m@ == "OK"@),
        outcome == CommandOutcome::Failed ==> r.code == 500 && r.reason is None,
        outcome == CommandOutcome::Unparsable ==> r.code == 400 && (r.reason matches Some(m) && m@
            == "Unable to parse command"@),
{
    match outcome {
        CommandOutcome::Handled => HttpStatus { code: 200, reason: Some("OK") },
        CommandOutcome::Failed => HttpStatus { code: 500, reason: None },
        CommandOutcome::Unparsable => HttpStatus { code: 400, reason: Some("Unable to parse command") },
    }
}

} // verus!
