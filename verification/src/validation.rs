//! Validation of caller-supplied strings: image sources (HTTPS URLs or local
//! paths), free-text prompts, and output paths, plus the fixed mapping from
//! file extension to MIME type. Every rule is stated exactly: each validator's
//! contract names the failure message produced for each rejected input.

use vstd::prelude::*;
use vstd::string::*;

use crate::error::{McpError, McpResult};
use crate::text::{
    ends_with_lower, has_char, has_dotdot, is_blank, is_space_char, lower_char, lower_seq,
    starts_with, str_ends_with_lower, str_has_char, str_has_dotdot, str_is_blank,
    str_starts_with,
};

verus! {

/// A check-and-fail contract shared by the validators: one method that
/// accepts the input or reports why it is refused.
pub trait Validator<T> {
    /// Inputs the validator can accept.
    spec fn accepts(&self, input: &T) -> bool;

    /// Inputs the validator can refuse.
    spec fn rejects(&self, input: &T) -> bool;

    fn validate(&self, input: &T) -> (r: McpResult<()>)
        ensures
            r is Ok ==> self.accepts(input),
            r is Err ==> self.rejects(input),
    ;
}

/// Holds when the case-folded string ends in one of the accepted image
/// file extensions.
pub open spec fn allowed_extension(s: Seq<char>) -> bool {
    ||| ends_with_lower(s, ".jpg"@)
    ||| ends_with_lower(s, ".jpeg"@)
    ||| ends_with_lower(s, ".png"@)
    ||| ends_with_lower(s, ".gif"@)
    ||| ends_with_lower(s, ".webp"@)
    ||| ends_with_lower(s, ".bmp"@)
    ||| ends_with_lower(s, ".tiff"@)
    ||| ends_with_lower(s, ".tif"@)
}

pub fn has_allowed_extension(s: &str) -> (r: bool)
    ensures
        r == allowed_extension(s@),
{
    str_ends_with_lower(s, ".jpg") || str_ends_with_lower(s, ".jpeg") || str_ends_with_lower(
        s,
        ".png",
    ) || str_ends_with_lower(s, ".gif") || str_ends_with_lower(s, ".webp") || str_ends_with_lower(
        s,
        ".bmp",
    ) || str_ends_with_lower(s, ".tiff") || str_ends_with_lower(s, ".tif")
}

pub open spec fn is_url_chars(s: Seq<char>) -> bool {
    starts_with(s, "http://"@) || starts_with(s, "https://"@)
}

/// A source is treated as a URL exactly when it starts with an HTTP scheme;
/// anything else is a local path.
pub fn is_url(source: &str) -> (r: bool)
    ensures
        r == is_url_chars(source@),
{
    str_starts_with(source, "http://") || str_starts_with(source, "https://")
}

/// The failure message an image source is refused with, or `None` when the
/// source is accepted. Checks run in this order: blank, length, then either
/// the URL rules (HTTPS only, must contain a dot) or the local-path rules
/// (no traversal, accepted extension).
pub open spec fn image_source_failure(s: Seq<char>) -> Option<Seq<char>> {
    if is_blank(s) {
        Some("Image source cannot be empty"@)
    } else if s.len() > 2048 {
        Some("Image source URL/path too long (max 2048 characters)"@)
    } else if is_url_chars(s) {
        if !starts_with(s, "https://"@) {
            Some("Only HTTPS URLs are allowed for security"@)
        } else if !has_char(s, '.') {
            Some("Invalid URL format"@)
        } else {
            None
        }
    } else {
        if has_dotdot(s) {
            Some("Path traversal not allowed"@)
        } else if !allowed_extension(s) {
            Some("Unsupported file extension. Allowed: jpg, jpeg, png, gif, webp, bmp, tiff, tif"@)
        } else {
            None
        }
    }
}

pub struct ImageSourceValidator;

impl ImageSourceValidator {
    /// Accepts or refuses an image source, with the exact message of
    /// `image_source_failure`.
    pub fn check(&self, source: &String) -> (r: McpResult<()>)
        ensures
            match r {
                Ok(_) => image_source_failure(source@) is None,
                Err(e) => e matches McpError::InvalidInput(m) && Some(m@) == image_source_failure(
                    source@,
                ),
            },
    {
        let s: &str = source.as_str();
        if str_is_blank(s) {
            return Err(McpError::InvalidInput("Image source cannot be empty".to_owned()));
        }
        if s.unicode_len() > 2048 {
            return Err(
                McpError::InvalidInput(
                    "Image source URL/path too long (max 2048 characters)".to_owned(),
                ),
            );
        }
        if is_url(s) {
            if !str_starts_with(s, "https://") {
                return Err(
                    McpError::InvalidInput("Only HTTPS URLs are allowed for security".to_owned()),
                );
            }
            if !str_has_char(s, '.') {
                return Err(McpError::InvalidInput("Invalid URL format".to_owned()));
            }
            Ok(())
        } else {
            if str_has_dotdot(s) {
                return Err(McpError::InvalidInput("Path traversal not allowed".to_owned()));
            }
            if !has_allowed_extension(s) {
                return Err(
                    McpError::InvalidInput(
                        "Unsupported file extension. Allowed: jpg, jpeg, png, gif, webp, bmp, tiff, tif".to_owned(),
                    ),
                );
            }
            Ok(())
        }
    }
}

impl Validator<String> for ImageSourceValidator {
    open spec fn accepts(&self, input: &String) -> bool {
        image_source_failure(input@) is None
    }

    open spec fn rejects(&self, input: &String) -> bool {
        image_source_failure(input@) is Some
    }

    fn validate(&self, input: &String) -> (r: McpResult<()>) {
        self.check(input)
    }
}

/// The failure message a prompt is refused with: only over-long prompts are
/// refused; the empty prompt is valid.
pub open spec fn prompt_failure(s: Seq<char>) -> Option<Seq<char>> {
    if s.len() > 2000 {
        Some("Prompt too long (max 2000 characters)"@)
    } else {
        None
    }
}

pub struct PromptValidator;

impl PromptValidator {
    pub fn check(&self, prompt: &String) -> (r: McpResult<()>)
        ensures
            match r {
                Ok(_) => prompt_failure(prompt@) is None,
                Err(e) => e matches McpError::InvalidInput(m) && Some(m@) == prompt_failure(
                    prompt@,
                ),
            },
    {
        if prompt.as_str().unicode_len() > 2000 {
            return Err(
                McpError::InvalidInput("Prompt too long (max 2000 characters)".to_owned()),
            );
        }
        Ok(())
    }
}

impl Validator<String> for PromptValidator {
    open spec fn accepts(&self, input: &String) -> bool {
        prompt_failure(input@) is None
    }

    open spec fn rejects(&self, input: &String) -> bool {
        prompt_failure(input@) is Some
    }

    fn validate(&self, input: &String) -> (r: McpResult<()>) {
        self.check(input)
    }
}

/// Everything of the string before its final occurrence of `c`; meaningful
/// only when the string contains `c`.
pub open spec fn before_last(s: Seq<char>, c: char) -> Seq<char>
    decreases s.len(),
{
    if s.len() == 0 {
        s
    } else if s[s.len() - 1] == c {
        s.drop_last()
    } else {
        before_last(s.drop_last(), c)
    }
}

/// Everything of the string after its final occurrence of `c`, or the whole
/// string when `c` does not occur.
pub open spec fn after_last(s: Seq<char>, c: char) -> Seq<char>
    decreases s.len(),
{
    if s.len() == 0 {
        s
    } else if s[s.len() - 1] == c {
        Seq::empty()
    } else {
        after_last(s.drop_last(), c).push(s[s.len() - 1])
    }
}

proof fn lemma_after_last_at(s: Seq<char>, c: char, j: int)
    requires
        0 <= j < s.len(),
        s[j] == c,
        forall|k: int| j < k < s.len() ==> s[k] != c,
    ensures
        after_last(s, c) =~= s.subrange(j + 1, s.len() as int),
    decreases s.len(),
{
    if j == s.len() - 1 {
    } else {
        lemma_after_last_at(s.drop_last(), c, j);
    }
}

proof fn lemma_after_last_absent(s: Seq<char>, c: char)
    requires
        !has_char(s, c),
    ensures
        after_last(s, c) =~= s,
    decreases s.len(),
{
    if s.len() > 0 {
        assert(!has_char(s.drop_last(), c)) by {
            assert(forall|i: int| 0 <= i < s.len() ==> s[i] != c);
        }
        lemma_after_last_absent(s.drop_last(), c);
    }
}

proof fn lemma_before_last_at(s: Seq<char>, c: char, j: int)
    requires
        0 <= j < s.len(),
        s[j] == c,
        forall|k: int| j < k < s.len() ==> s[k] != c,
    ensures
        before_last(s, c) =~= s.subrange(0, j),
    decreases s.len(),
{
    if j == s.len() - 1 {
    } else {
        lemma_before_last_at(s.drop_last(), c, j);
    }
}

/// The directory part of a path: what stands before the final '/', or the
/// empty sequence when there is no '/' (the current directory).
pub open spec fn parent_dir(s: Seq<char>) -> Seq<char> {
    if has_char(s, '/') {
        before_last(s, '/')
    } else {
        Seq::empty()
    }
}

/// The failure message an output path is refused with on its text alone,
/// before the filesystem is consulted, or `None` when the text is acceptable.
pub open spec fn output_path_syntax_failure(s: Seq<char>) -> Option<Seq<char>> {
    if is_blank(s) {
        Some("Output path cannot be empty"@)
    } else if s.len() > 2048 {
        Some("Output path too long (max 2048 characters)"@)
    } else if has_dotdot(s) {
        Some("Path traversal not allowed in output path"@)
    } else if !allowed_extension(s) {
        Some(
            "Unsupported output file extension. Allowed: jpg, jpeg, png, gif, webp, bmp, tiff, tif"@,
        )
    } else {
        None
    }
}

/// Relies on `std::path::Path::exists`: reports whether the path names an
/// entry that exists on disk at the time of the call. Nothing further is
/// assumed of the result; two calls on one path may differ.
#[verifier::external_body]
fn path_exists(p: &str) -> bool {
    std::path::Path::new(p).exists()
}

fn last_index_of_char(s: &str, c: char) -> (r: Option<usize>)
    ensures
        match r {
            Some(j) => j < s@.len() && s@[j as int] == c && forall|k: int|
                j < k < s@.len() ==> s@[k] != c,
            None => !has_char(s@, c),
        },
{
    let n: usize = s.unicode_len();
    let mut i: usize = 0;
    let mut found: Option<usize> = None;
    while i < n
        invariant
            i <= n,
            n == s@.len(),
            match found {
                Some(j) => j < i && s@[j as int] == c && forall|k: int| j < k < i ==> s@[k] != c,
                None => forall|k: int| 0 <= k < i ==> s@[k] != c,
            },
        decreases n - i,
    {
        if s.get_char(i) == c {
            found = Some(i);
        }
        i = i + 1;
    }
    found
}

pub struct OutputPathValidator;

impl OutputPathValidator {
    /// The outcome of the full output-path check once the filesystem's
    /// answer about the parent directory is fixed: exactly one of the
    /// syntax failure, the missing-parent failure, or acceptance.
    pub fn check_with_parent(&self, path: &String, parent_exists: bool) -> (r: McpResult<()>)
        ensures
            match r {
                Ok(_) => output_path_syntax_failure(path@) is None && (parent_dir(path@).len() == 0
                    || parent_exists),
                Err(e) => match e {
                    McpError::InvalidInput(m) => Some(m@) == output_path_syntax_failure(path@),
                    McpError::FileSystemError(m) => output_path_syntax_failure(path@) is None
                        && parent_dir(path@).len() > 0 && !parent_exists && m@
                        == "Parent directory does not exist: "@ + parent_dir(path@),
                    _ => false,
                },
            },
    {
        let s: &str = path.as_str();
        if str_is_blank(s) {
            return Err(McpError::InvalidInput("Output path cannot be empty".to_owned()));
        }
        if s.unicode_len() > 2048 {
            return Err(
                McpError::InvalidInput("Output path too long (max 2048 characters)".to_owned()),
            );
        }
        if str_has_dotdot(s) {
            return Err(
                McpError::InvalidInput("Path traversal not allowed in output path".to_owned()),
            );
        }
        if !has_allowed_extension(s) {
            return Err(
                McpError::InvalidInput(
                    "Unsupported output file extension. Allowed: jpg, jpeg, png, gif, webp, bmp, tiff, tif".to_owned(),
                ),
            );
        }
        match last_index_of_char(s, '/') {
            Some(j) => {
                proof {
                    lemma_before_last_at(s@, '/', j as int);
                }
                if j > 0 && !parent_exists {
                    let parent: &str = s.substring_char(0, j);
                    return Err(
                        McpError::FileSystemError(
                            String::from_str("Parent directory does not exist: ").concat(parent),
                        ),
                    );
                }
            },
            None => {},
        }
        Ok(())
    }

    /// Accepts or refuses an output path, consulting the filesystem for the
    /// parent directory. Acceptance implies the text passed every syntactic
    /// rule; the filesystem answer decides between success and the
    /// missing-parent error.
    pub fn check(&self, path: &String) -> (r: McpResult<()>)
        ensures
            match r {
                Ok(_) => output_path_syntax_failure(path@) is None,
                Err(e) => match e {
                    McpError::InvalidInput(m) => Some(m@) == output_path_syntax_failure(path@),
                    McpError::FileSystemError(m) => output_path_syntax_failure(path@) is None
                        && parent_dir(path@).len() > 0 && m@
                        == "Parent directory does not exist: "@ + parent_dir(path@),
                    _ => false,
                },
            },
    {
        let s: &str = path.as_str();
        let parent_exists: bool = match last_index_of_char(s, '/') {
            Some(j) => {
                proof {
                    lemma_before_last_at(s@, '/', j as int);
                }
                if j > 0 {
                    let parent: &str = s.substring_char(0, j);
                    path_exists(parent)
                } else {
                    true
                }
            },
            None => true,
        };
        self.check_with_parent(path, parent_exists)
    }
}

impl Validator<String> for OutputPathValidator {
    open spec fn accepts(&self, input: &String) -> bool {
        output_path_syntax_failure(input@) is None
    }

    open spec fn rejects(&self, input: &String) -> bool {
        output_path_syntax_failure(input@) is Some || parent_dir(input@).len() > 0
    }

    fn validate(&self, input: &String) -> (r: McpResult<()>) {
        self.check(input)
    }
}

/// What stands after the final '.' of the path's file name, or the empty
/// sequence when the file name has no extension (no '.' past its first
/// character, as for dot-files).
pub open spec fn extension_of(path: Seq<char>) -> Seq<char> {
    let name = after_last(path, '/');
    if exists|i: int| 1 <= i < name.len() && name[i] == '.' {
        after_last(name, '.')
    } else {
        Seq::empty()
    }
}

/// The fixed extension-to-MIME mapping; unknown or missing extensions fall
/// back to JPEG.
pub open spec fn mime_for(path: Seq<char>) -> Seq<char> {
    let ext = lower_seq(extension_of(path));
    if ext == "jpg"@ || ext == "jpeg"@ {
        "image/jpeg"@
    } else if ext == "png"@ {
        "image/png"@
    } else if ext == "gif"@ {
        "image/gif"@
    } else if ext == "webp"@ {
        "image/webp"@
    } else if ext == "bmp"@ {
        "image/bmp"@
    } else if ext == "tiff"@ || ext == "tif"@ {
        "image/tiff"@
    } else {
        "image/jpeg"@
    }
}

fn str_eq_lower(s: &str, lit: &str) -> (r: bool)
    ensures
        r == (lower_seq(s@) == lit@),
{
    let n: usize = s.unicode_len();
    let m: usize = lit.unicode_len();
    if n != m {
        assert(lower_seq(s@).len() == n);
        return false;
    }
    let mut i: usize = 0;
    while i < n
        invariant
            i <= n,
            n == s@.len() == lit@.len(),
            forall|j: int| 0 <= j < i ==> lower_char(#[trigger] s@[j]) == lit@[j],
        decreases n - i,
    {
        if !lower_eq_at(s, lit, i) {
            assert(lower_seq(s@)[i as int] != lit@[i as int]);
            return false;
        }
        i = i + 1;
    }
    assert(lower_seq(s@) =~= lit@);
    true
}

fn lower_eq_at(s: &str, lit: &str, i: usize) -> (r: bool)
    requires
        i < s@.len(),
        i < lit@.len(),
    ensures
        r == (lower_char(s@[i as int]) == lit@[i as int]),
{
    crate::text::lower_eq(s.get_char(i), lit.get_char(i))
}

/// Maps a file name's extension to its MIME type: jpg/jpeg, png, gif, webp,
/// bmp and tiff/tif are recognised, case-insensitively; anything else is
/// reported as JPEG.
pub fn get_mime_type_from_extension(path: &str) -> (r: String)
    ensures
        r@ == mime_for(path@),
{
    let n: usize = path.unicode_len();
    let start: usize = match last_index_of_char(path, '/') {
        Some(j) => {
            proof {
                lemma_after_last_at(path@, '/', j as int);
            }
            j + 1
        },
        None => {
            proof {
                lemma_after_last_absent(path@, '/');
            }
            0
        },
    };
    assert(after_last(path@, '/') =~= path@.subrange(start as int, n as int));
    let ghost name = after_last(path@, '/');
    let dot: Option<usize> = last_index_of_char(path, '.');
    let ext_start: Option<usize> = match dot {
        Some(d) => if d > start {
            Some(d + 1)
        } else {
            None
        },
        None => None,
    };
    match ext_start {
        Some(e) => {
            proof {
                let d = e - 1;
                assert(name[d - start] == '.');
                assert(forall|k: int| d - start < k < name.len() ==> name[k] != '.');
                lemma_after_last_at(name, '.', d - start);
                assert(1 <= d - start < name.len() && name[d - start] == '.');
                assert(after_last(name, '.') =~= path@.subrange(e as int, n as int));
                assert(extension_of(path@) =~= path@.subrange(e as int, n as int));
            }
            let ext: &str = path.substring_char(e, n);
            if str_eq_lower(ext, "jpg") || str_eq_lower(ext, "jpeg") {
                String::from_str("image/jpeg")
            } else if str_eq_lower(ext, "png") {
                String::from_str("image/png")
            } else if str_eq_lower(ext, "gif") {
                String::from_str("image/gif")
            } else if str_eq_lower(ext, "webp") {
                String::from_str("image/webp")
            } else if str_eq_lower(ext, "bmp") {
                String::from_str("image/bmp")
            } else if str_eq_lower(ext, "tiff") || str_eq_lower(ext, "tif") {
                String::from_str("image/tiff")
            } else {
                String::from_str("image/jpeg")
            }
        },
        None => {
            proof {
                assert(!(exists|i: int| 1 <= i < name.len() && name[i] == '.')) by {
                    if exists|i: int| 1 <= i < name.len() && name[i] == '.' {
                        let i = choose|i: int| 1 <= i < name.len() && name[i] == '.';
                        assert(path@[start + i] == '.');
                    }
                }
                assert(extension_of(path@) =~= Seq::<char>::empty());
                reveal_strlit("jpg");
                reveal_strlit("jpeg");
                reveal_strlit("png");
                reveal_strlit("gif");
                reveal_strlit("webp");
                reveal_strlit("bmp");
                reveal_strlit("tiff");
                reveal_strlit("tif");
                assert(lower_seq(extension_of(path@)).len() == 0);
            }
            String::from_str("image/jpeg")
        },
    }
}

/// Any output path that does not end in an accepted image extension is
/// refused before the filesystem is consulted; one that does end in an
/// accepted extension, is within the length bound, has no ".." and whose
/// parent directory exists (or is the current directory) is accepted.
pub proof fn lemma_output_path_verdict(p: Seq<char>, parent_exists: bool)
    ensures
        !allowed_extension(p) ==> output_path_syntax_failure(p) is Some,
        (allowed_extension(p) && p.len() <= 2048 && !has_dotdot(p) && (parent_dir(p).len() == 0
            || parent_exists)) ==> output_path_syntax_failure(p) is None,
{
    if allowed_extension(p) {
        lemma_allowed_extension_not_blank(p);
    }
}

proof fn lemma_allowed_extension_not_blank(p: Seq<char>)
    requires
        allowed_extension(p),
    ensures
        !is_blank(p),
{
    reveal_strlit(".jpg");
    reveal_strlit(".jpeg");
    reveal_strlit(".png");
    reveal_strlit(".gif");
    reveal_strlit(".webp");
    reveal_strlit(".bmp");
    reveal_strlit(".tiff");
    reveal_strlit(".tif");
    let last = p[p.len() - 1];
    assert(lower_char(last) == 'g' || lower_char(last) == 'f' || lower_char(last) == 'p') by {
        if ends_with_lower(p, ".jpg"@) {
            assert(lower_seq(p.subrange(p.len() - 4, p.len() as int))[3] == 'g');
        } else if ends_with_lower(p, ".jpeg"@) {
            assert(lower_seq(p.subrange(p.len() - 5, p.len() as int))[4] == 'g');
        } else if ends_with_lower(p, ".png"@) {
            assert(lower_seq(p.subrange(p.len() - 4, p.len() as int))[3] == 'g');
        } else if ends_with_lower(p, ".gif"@) {
            assert(lower_seq(p.subrange(p.len() - 4, p.len() as int))[3] == 'f');
        } else if ends_with_lower(p, ".webp"@) {
            assert(lower_seq(p.subrange(p.len() - 5, p.len() as int))[4] == 'p');
        } else if ends_with_lower(p, ".bmp"@) {
            assert(lower_seq(p.subrange(p.len() - 4, p.len() as int))[3] == 'p');
        } else if ends_with_lower(p, ".tiff"@) {
            assert(lower_seq(p.subrange(p.len() - 5, p.len() as int))[4] == 'f');
        } else {
            assert(lower_seq(p.subrange(p.len() - 4, p.len() as int))[3] == 'f');
        }
    }
    assert(!is_space_char(last));
}

/// An image source holding ".." is refused whenever it is not an HTTPS URL:
/// as a path it is refused for traversal (or an earlier rule), and with the
/// plain-HTTP scheme it is refused as insecure.
pub proof fn lemma_dotdot_source_rejected(s: Seq<char>)
    requires
        has_dotdot(s),
        !starts_with(s, "https://"@),
    ensures
        image_source_failure(s) is Some,
{
}

/// A source with the plain-HTTP scheme is always refused, and within the
/// length bound it is refused as insecure.
pub proof fn lemma_http_source_rejected(s: Seq<char>)
    requires
        starts_with(s, "http://"@),
    ensures
        image_source_failure(s) is Some,
        s.len() <= 2048 ==> image_source_failure(s) == Some(
            "Only HTTPS URLs are allowed for security"@,
        ),
{
    reveal_strlit("http://");
    reveal_strlit("https://");
    assert(s.subrange(0, 7)[0] == 'h');
    assert(!is_space_char('h'));
    assert(!is_blank(s));
    if starts_with(s, "https://"@) {
        assert(s.subrange(0, 8)[4] == 's');
        assert(s.subrange(0, 7)[4] == ':');
        assert(false);
    }
}

} // verus!
