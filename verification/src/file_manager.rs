//! File selection support: supported-format checks, path-derived display
//! names and track metadata assembly.
//!
//! Paths are carried as plain strings; components are separated by `'/'` and
//! an extension is what follows the last `'.'` of the last component, when
//! that dot is not its first character.  Filesystem checks, dialogs and the
//! decoding probe live with the surrounding application, which hands their
//! findings in as plain values.

use vstd::prelude::*;
use vstd::string::*;
use vstd::seq_lib::*;
use crate::errors::FileManagerError;

verus! {

/// Position of the last occurrence of `c` in `s`, if any.
pub open spec fn spec_last_occurrence(s: Seq<char>, c: char) -> Option<int>
    decreases s.len(),
{
    if s.len() == 0 {
        None
    } else if s.last() == c {
        Some(s.len() - 1)
    } else {
        spec_last_occurrence(s.drop_last(), c)
    }
}

/// Start of the last path component: just after the last `'/'`.
pub open spec fn spec_file_name_start(s: Seq<char>) -> int {
    match spec_last_occurrence(s, '/') {
        Some(i) => i + 1,
        None => 0,
    }
}

/// The last path component.
pub open spec fn spec_file_name(s: Seq<char>) -> Seq<char> {
    s.subrange(spec_file_name_start(s), s.len() as int)
}

/// The extension: what follows the last `'.'`, provided that dot lies in
/// the last component and is not its first character.
pub open spec fn spec_extension(s: Seq<char>) -> Option<Seq<char>> {
    match spec_last_occurrence(s, '.') {
        Some(j) => if j > spec_file_name_start(s) {
            Some(s.subrange(j + 1, s.len() as int))
        } else {
            None
        },
        None => None,
    }
}

/// The last component with its extension stripped.
pub open spec fn spec_file_stem(s: Seq<char>) -> Seq<char> {
    match spec_last_occurrence(s, '.') {
        Some(j) => if j > spec_file_name_start(s) {
            s.subrange(spec_file_name_start(s), j)
        } else {
            spec_file_name(s)
        },
        None => spec_file_name(s),
    }
}

/// The display name a path yields: its stem, or `"Unknown"` when the stem
/// is empty.
pub open spec fn spec_display_name(s: Seq<char>) -> Seq<char> {
    if spec_file_stem(s).len() == 0 {
        "Unknown"@
    } else {
        spec_file_stem(s)
    }
}

/// The code of `c` with ASCII upper-case letters folded to lower case.
pub open spec fn lower_code(c: char) -> u32 {
    if 'A' as u32 <= c as u32 && c as u32 <= 'Z' as u32 {
        (c as u32 + 32) as u32
    } else {
        c as u32
    }
}

/// Equality of two character sequences up to ASCII case.
pub open spec fn eq_ignore_ascii_case(a: Seq<char>, b: Seq<char>) -> bool {
    a.len() == b.len() && (forall|i: int| 0 <= i < a.len() ==> lower_code(a[i]) == lower_code(b[i]))
}

/// Whether the path's extension matches one of `formats`, ignoring ASCII
/// case.
pub open spec fn spec_is_supported(formats: Seq<Seq<char>>, path: Seq<char>) -> bool {
    match spec_extension(path) {
        Some(e) => exists|i: int| 0 <= i < formats.len() && eq_ignore_ascii_case(e, formats[i]),
        None => false,
    }
}

/// The audio formats the player accepts.
pub open spec fn supported_formats_spec() -> Seq<Seq<char>> {
    seq!["mp3"@, "flac"@, "wav"@, "ogg"@, "m4a"@, "aac"@, "opus"@, "wma"@]
}

/// The subsequence of `paths` whose extension is one of `formats`.
pub open spec fn spec_supported_filter(formats: Seq<Seq<char>>, paths: Seq<Seq<char>>) -> Seq<
    Seq<char>,
> {
    paths.filter(|p: Seq<char>| spec_is_supported(formats, p))
}

/// A track's duration in milliseconds, computed from its frame count and
/// time base and saturated at `u64::MAX`; 0 when the time base is
/// degenerate.
pub open spec fn spec_duration_ms(frames: nat, num: nat, den: nat) -> nat {
    if den == 0 {
        0
    } else if frames * num * 1000 / den > u64::MAX as nat {
        u64::MAX as nat
    } else {
        frames * num * 1000 / den
    }
}

/// The lowercase hexadecimal rendering of the MD5 digest of a string's
/// bytes.
pub uninterp spec fn md5_hex_of(s: Seq<char>) -> Seq<char>;

/// Relies on `md5::compute` and the digest's `LowerHex` rendering: the
/// digest is a pure function of the input bytes, printed as two lowercase
/// hex digits per digest byte, 32 characters in all.
#[verifier::external_body]
fn md5_hex(s: &str) -> (r: String)
    ensures
        r@ == md5_hex_of(s@),
        r@.len() == 32,
{
    format!("{:x}", md5::compute(s.as_bytes()))
}

/// Appending one path keeps the supported subsequence and extends it by the
/// path exactly when its extension is supported.
proof fn lemma_supported_filter_push(formats: Seq<Seq<char>>, prefix: Seq<Seq<char>>, p: Seq<char>)
    ensures
        spec_supported_filter(formats, prefix.push(p)) == if spec_is_supported(formats, p) {
            spec_supported_filter(formats, prefix).push(p)
        } else {
            spec_supported_filter(formats, prefix)
        },
{
    reveal(Seq::filter);
    assert(prefix.push(p).drop_last() =~= prefix);
    assert(prefix.push(p).last() == p);
}

/// Appending one character moves the last occurrence to it when it matches,
/// and keeps it otherwise.
proof fn lemma_last_occurrence_push(s: Seq<char>, x: char, c: char)
    ensures
        spec_last_occurrence(s.push(x), c) == if x == c {
            Some(s.len() as int)
        } else {
            spec_last_occurrence(s, c)
        },
{
    assert(s.push(x).last() == x);
    assert(s.push(x).drop_last() =~= s);
}

/// Position of the last occurrence of `c` in `s`, if any.
fn last_occurrence_char(s: &str, c: char) -> (r: Option<usize>)
    ensures
        r matches Some(i) ==> i < s@.len() && spec_last_occurrence(s@, c) == Some(i as int),
        r is None ==> spec_last_occurrence(s@, c) is None,
{
    let n = s.unicode_len();
    let mut i: usize = 0;
    let mut best: Option<usize> = None;
    while i < n
        invariant
            i <= n,
            n == s@.len(),
            best matches Some(b) ==> b < i && spec_last_occurrence(s@.subrange(0, i as int), c)
                == Some(b as int),
            best is None ==> spec_last_occurrence(s@.subrange(0, i as int), c) is None,
        decreases n - i,
    {
        let ch = s.get_char(i);
        proof {
            lemma_last_occurrence_push(s@.subrange(0, i as int), s@[i as int], c);
            assert(s@.subrange(0, i + 1 as int) =~= s@.subrange(0, i as int).push(s@[i as int]));
        }
        if ch == c {
            best = Some(i);
        }
        i = i + 1;
    }
    proof {
        assert(s@.subrange(0, n as int) =~= s@);
    }
    best
}

/// Whether two characters agree up to ASCII case.
fn chars_eq_ci(a: char, b: char) -> (r: bool)
    ensures
        r == (lower_code(a) == lower_code(b)),
{
    let ua = a as u32;
    let ub = b as u32;
    let la: u32 = if ua >= 'A' as u32 && ua <= 'Z' as u32 {
        ua + 32
    } else {
        ua
    };
    let lb: u32 = if ub >= 'A' as u32 && ub <= 'Z' as u32 {
        ub + 32
    } else {
        ub
    };
    la == lb
}

/// Whether two strings agree up to ASCII case.
fn eq_ignore_case(a: &str, b: &str) -> (r: bool)
    ensures
        r == eq_ignore_ascii_case(a@, b@),
{
    let na = a.unicode_len();
    let nb = b.unicode_len();
    if na != nb {
        return false;
    }
    let mut i: usize = 0;
    while i < na
        invariant
            i <= na,
            na == a@.len(),
            na == b@.len(),
            forall|j: int| 0 <= j < i ==> lower_code(a@[j]) == lower_code(b@[j]),
        decreases na - i,
    {
        if !chars_eq_ci(a.get_char(i), b.get_char(i)) {
            assert(!eq_ignore_ascii_case(a@, b@));
            return false;
        }
        i = i + 1;
    }
    true
}

/// A track as the library presents it: an identifier derived from the path,
/// display fields and the duration in milliseconds.
#[derive(Debug, Clone)]
pub struct TrackMetadata {
    pub id: String,
    pub title: String,
    pub artist: String,
    pub duration_ms: u64,
    pub file_path: String,
}

/// Knows which audio formats the player accepts and derives display data
/// from paths.
#[derive(Debug, Clone)]
pub struct FileManager {
    supported_formats: Vec<String>,
}

impl View for FileManager {
    type V = Seq<Seq<char>>;

    closed spec fn view(&self) -> Seq<Seq<char>> {
        self.supported_formats.deep_view()
    }
}

impl FileManager {
    /// A manager accepting the player's audio formats.
    pub fn new() -> (fm: FileManager)
        ensures
            fm@ =~= supported_formats_spec(),
    {
        let mut v: Vec<String> = Vec::new();
        v.push("mp3".to_owned());
        v.push("flac".to_owned());
        v.push("wav".to_owned());
        v.push("ogg".to_owned());
        v.push("m4a".to_owned());
        v.push("aac".to_owned());
        v.push("opus".to_owned());
        v.push("wma".to_owned());
        let fm = FileManager { supported_formats: v };
        proof {
            assert(fm@ =~= supported_formats_spec());
        }
        fm
    }

    /// Whether the path carries a supported audio extension, ignoring ASCII
    /// case.
    pub fn is_supported_format(&self, path: &str) -> (r: bool)
        ensures
            r == spec_is_supported(self@, path@),
    {
        let n = path.unicode_len();
        let start = match last_occurrence_char(path, '/') {
            Some(i) => i + 1,
            None => 0,
        };
        let j = match last_occurrence_char(path, '.') {
            Some(j) => j,
            None => {
                return false;
            },
        };
        if j <= start {
            return false;
        }
        let ext = path.substring_char(j + 1, n);
        let mut k: usize = 0;
        let mut found = false;
        while k < self.supported_formats.len()
            invariant
                k <= self.supported_formats.len(),
                self@ == self.supported_formats.deep_view(),
                ext@ == spec_extension(path@).unwrap(),
                spec_extension(path@) is Some,
                found == exists|i: int|
                    0 <= i < k && eq_ignore_ascii_case(ext@, self@[i]),
            decreases self.supported_formats.len() - k,
        {
            if eq_ignore_case(ext, self.supported_formats[k].as_str()) {
                proof {
                    assert(self@[k as int] == self.supported_formats@[k as int]@);
                }
                found = true;
            }
            k = k + 1;
        }
        found
    }

    /// The accepted formats, lower case, in a fixed order.
    pub fn get_supported_formats(&self) -> (r: &[String])
        ensures
            r.deep_view() == self@,
    {
        let r = self.supported_formats.as_slice();
        proof {
            assert(r.deep_view() =~= self@);
        }
        r
    }

    /// Validate a prospective track: the application reports whether the
    /// path exists and is a file, and the manager checks the format.  Each
    /// failure names its own error; the checks run in this order.
    pub fn validate_audio_file(&self, path: &str, exists: bool, is_file: bool) -> (r: Result<
        (),
        FileManagerError,
    >)
        ensures
            !exists ==> (r matches Err(e) && e matches FileManagerError::FileNotFound(p) && p@
                == path@),
            exists && !is_file ==> (r matches Err(e) && e matches FileManagerError::InvalidPath(p)
                && p@ == path@),
            exists && is_file && !spec_is_supported(self@, path@) ==> (r matches Err(e)
                && e matches FileManagerError::UnsupportedFormat(p) && p@ == path@),
            exists && is_file && spec_is_supported(self@, path@) ==> r is Ok,
    {
        if !exists {
            return Err(FileManagerError::FileNotFound(path.to_owned()));
        }
        if !is_file {
            return Err(FileManagerError::InvalidPath(path.to_owned()));
        }
        if !self.is_supported_format(path) {
            return Err(FileManagerError::UnsupportedFormat(path.to_owned()));
        }
        Ok(())
    }

    /// The paths among `paths` whose extension is supported, in order.  The
    /// application walks a directory and hands every file it finds here.
    pub fn filter_supported(&self, paths: &Vec<String>) -> (r: Vec<String>)
        ensures
            r.deep_view() == spec_supported_filter(self@, paths.deep_view()),
    {
        let mut out: Vec<String> = Vec::new();
        let mut i: usize = 0;
        while i < paths.len()
            invariant
                i <= paths.len(),
                out.deep_view() == spec_supported_filter(
                    self@,
                    paths.deep_view().subrange(0, i as int),
                ),
            decreases paths.len() - i,
        {
            let ghost prefix = paths.deep_view().subrange(0, i as int);
            let ghost old_dv = out.deep_view();
            let p = &paths[i];
            proof {
                assert(paths.deep_view()[i as int] == p@);
                assert(paths.deep_view().subrange(0, i + 1 as int) =~= prefix.push(p@));
                lemma_supported_filter_push(self@, prefix, p@);
            }
            if self.is_supported_format(p.as_str()) {
                let q = p.clone();
                out.push(q);
                proof {
                    assert(out.deep_view() =~= old_dv.push(p@));
                }
            }
            i = i + 1;
        }
        proof {
            assert(paths.deep_view().subrange(0, paths.len() as int) =~= paths.deep_view());
        }
        out
    }

    /// The display name a path yields: its stem, or `"Unknown"` when the
    /// stem is empty.
    pub fn get_file_name(&self, path: &str) -> (r: String)
        ensures
            r@ == spec_display_name(path@),
    {
        let n = path.unicode_len();
        let start = match last_occurrence_char(path, '/') {
            Some(i) => i + 1,
            None => 0,
        };
        let stem_end = match last_occurrence_char(path, '.') {
            Some(j) => if j > start {
                j
            } else {
                n
            },
            None => n,
        };
        let stem = path.substring_char(start, stem_end);
        if stem.is_empty() {
            "Unknown".to_owned()
        } else {
            stem.to_owned()
        }
    }

    /// Assemble a track's metadata from what the decoding probe found.  A
    /// missing title falls back to the path's display name, a missing
    /// artist to `"Unknown Artist"`, and the identifier is the MD5 hex
    /// digest of the path.
    pub fn make_track_metadata(
        &self,
        path: &str,
        title: Option<String>,
        artist: Option<String>,
        duration_ms: u64,
    ) -> (m: TrackMetadata)
        ensures
            m.id@ == md5_hex_of(path@),
            title matches Some(t) ==> m.title@ == t@,
            title is None ==> m.title@ == spec_display_name(path@),
            artist matches Some(a) ==> m.artist@ == a@,
            artist is None ==> m.artist@ == "Unknown Artist"@,
            m.duration_ms == duration_ms,
            m.file_path@ == path@,
    {
        let final_title = match title {
            Some(t) => t,
            None => self.get_file_name(path),
        };
        let final_artist = match artist {
            Some(a) => a,
            None => "Unknown Artist".to_owned(),
        };
        TrackMetadata {
            id: md5_hex(path),
            title: final_title,
            artist: final_artist,
            duration_ms,
            file_path: path.to_owned(),
        }
    }
}

impl Default for FileManager {
    /// Same as [`FileManager::new`].
    fn default() -> (fm: Self)
        ensures
            fm@ =~= supported_formats_spec(),
    {
        FileManager::new()
    }
}

/// A track's duration in milliseconds from its frame count and time base
/// (`tb_num / tb_den` seconds per frame), saturated at `u64::MAX`; 0 when
/// the time base is degenerate.
pub fn duration_ms_of(n_frames: u64, tb_num: u32, tb_den: u32) -> (r: u64)
    ensures
        r as nat == spec_duration_ms(n_frames as nat, tb_num as nat, tb_den as nat),
{
    if tb_den == 0 {
        return 0;
    }
    proof {
        assert((n_frames as int) * (tb_num as int) * 1000 < 0x1_0000_0000_0000_0000_0000_0000_0000
            && (n_frames as int) * (tb_num as int) * 1000 >= 0) by (nonlinear_arith)
            requires
                0 <= n_frames as int <= 0xffff_ffff_ffff_ffff,
                0 <= tb_num as int <= 0xffff_ffff,
        ;
    }
    let total: u128 = (n_frames as u128) * (tb_num as u128) * 1000;
    let ms: u128 = total / (tb_den as u128);
    if ms > u64::MAX as u128 {
        u64::MAX
    } else {
        ms as u64
    }
}

} // verus!
