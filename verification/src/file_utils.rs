//! Presentation helpers: human-readable byte counts and file-type icons.

use vstd::prelude::*;
use vstd::string::*;
use crate::strings::digit_char;
use crate::strings::digit_str;
use crate::strings::lower_seq;
use crate::strings::lower_char_exec;
use crate::strings::spec_decimal;
use crate::strings::u64_to_decimal;

verus! {

pub const BYTES_PER_KB: u64 = 1024;

pub const BYTES_PER_MB: u64 = 1024 * 1024;

pub const BYTES_PER_GB: u64 = 1024 * 1024 * 1024;

pub const BYTES_PER_TB: u64 = 1024 * 1024 * 1024 * 1024;

/// The divisor of the unit a size at least one kilobyte is displayed in.
pub open spec fn size_divisor(bytes: u64) -> int {
    if bytes < BYTES_PER_MB {
        BYTES_PER_KB as int
    } else if bytes < BYTES_PER_GB {
        BYTES_PER_MB as int
    } else if bytes < BYTES_PER_TB {
        BYTES_PER_GB as int
    } else {
        BYTES_PER_TB as int
    }
}

/// The unit suffix that goes with `size_divisor`.
pub open spec fn size_suffix(bytes: u64) -> Seq<char> {
    if bytes < BYTES_PER_MB {
        " KB"@
    } else if bytes < BYTES_PER_GB {
        " MB"@
    } else if bytes < BYTES_PER_TB {
        " GB"@
    } else {
        " TB"@
    }
}

/// The size scaled to its display unit, in tenths, rounded to nearest
/// (half rounds up).
pub open spec fn scaled_tenths(bytes: u64) -> int {
    (bytes * 10 + size_divisor(bytes) / 2) / size_divisor(bytes)
}

/// The human-readable rendering of a byte count: a plain count below one
/// kilobyte, and one decimal place in the largest unit not above the count
/// (capped at terabytes) from there on.
pub open spec fn format_size_spec(bytes: u64) -> Seq<char> {
    if bytes < BYTES_PER_KB {
        spec_decimal(bytes as int) + " B"@
    } else {
        let t = scaled_tenths(bytes);
        spec_decimal(t / 10) + seq!['.', digit_char(t % 10)] + size_suffix(bytes)
    }
}

/// Renders a byte count for display, e.g. "512 B", "1.5 KB", "2.0 GB".
pub fn format_size(bytes: u64) -> (r: String)
    ensures
        r@ == format_size_spec(bytes),
{
    if bytes < BYTES_PER_KB {
        let mut s = u64_to_decimal(bytes);
        s.append(" B");
        return s;
    }
    let divisor: u64 = if bytes < BYTES_PER_MB {
        BYTES_PER_KB
    } else if bytes < BYTES_PER_GB {
        BYTES_PER_MB
    } else if bytes < BYTES_PER_TB {
        BYTES_PER_GB
    } else {
        BYTES_PER_TB
    };
    let suffix: &'static str = if bytes < BYTES_PER_MB {
        " KB"
    } else if bytes < BYTES_PER_GB {
        " MB"
    } else if bytes < BYTES_PER_TB {
        " GB"
    } else {
        " TB"
    };
    let wide: u128 = (bytes as u128) * 10 + ((divisor / 2) as u128);
    let tenths_wide: u128 = wide / (divisor as u128);
    proof {
        vstd::arithmetic::div_mod::lemma_div_is_ordered_by_denominator(
            wide as int,
            1024,
            divisor as int,
        );
        vstd::arithmetic::div_mod::lemma_div_is_ordered(
            wide as int,
            0xFFFF_FFFF_FFFF_FFFFu128 * 10 + 0x80_0000_0000u128,
            1024,
        );
        assert(tenths_wide < 0x1_0000_0000_0000_0000u128);
    }
    let tenths: u64 = tenths_wide as u64;
    assert(tenths as int == scaled_tenths(bytes));
    let mut s = u64_to_decimal(tenths / 10);
    s.append(".");
    s.append(digit_str(tenths % 10));
    s.append(suffix);
    proof {
        reveal_strlit(".");
        assert(s@ =~= format_size_spec(bytes));
    }
    s
}

/// A path separator: either direction of slash counts, so that paths of
/// both conventions are handled alike.
pub open spec fn is_sep(c: char) -> bool {
    c == '/' || c == '\\'
}

/// The index just after the dot that starts the file-name extension of
/// `p`, or -1 when `p` has none. The extension is what follows the last
/// dot of the last path component, provided that dot is neither the
/// component's first character nor preceded by a separator.
pub open spec fn ext_start(p: Seq<char>) -> int
    decreases p.len(),
{
    if p.len() < 2 {
        -1
    } else if is_sep(p.last()) {
        -1
    } else if p.last() == '.' {
        if is_sep(p[p.len() - 2]) {
            -1
        } else {
            p.len() as int
        }
    } else {
        ext_start(p.drop_last())
    }
}

/// The extension of `p`, lower-cased; empty when `p` has none.
pub open spec fn ext_of(p: Seq<char>) -> Seq<char> {
    if ext_start(p) >= 0 {
        lower_seq(p.skip(ext_start(p)))
    } else {
        Seq::empty()
    }
}

/// The display icon for a lower-cased extension.
pub open spec fn icon_for(e: Seq<char>) -> Seq<char> {
    if e == "jpg"@ || e == "jpeg"@ || e == "png"@ || e == "gif"@ || e == "bmp"@ || e == "svg"@ {
        "🖼️"@
    } else if e == "mp4"@ || e == "avi"@ || e == "mkv"@ || e == "mov"@ || e == "wmv"@ {
        "🎬"@
    } else if e == "mp3"@ || e == "wav"@ || e == "flac"@ || e == "aac"@ || e == "ogg"@ {
        "🎵"@
    } else if e == "zip"@ || e == "rar"@ || e == "7z"@ || e == "tar"@ || e == "gz"@ {
        "📦"@
    } else if e == "exe"@ || e == "msi"@ || e == "app"@ {
        "⚙️"@
    } else if e == "pdf"@ {
        "📕"@
    } else if e == "doc"@ || e == "docx"@ {
        "📘"@
    } else if e == "xls"@ || e == "xlsx"@ {
        "📗"@
    } else if e == "ppt"@ || e == "pptx"@ {
        "📙"@
    } else if e == "html"@ || e == "htm"@ || e == "css"@ || e == "js"@ || e == "json"@ || e
        == "xml"@ {
        "🌐"@
    } else {
        "📄"@
    }
}

/// Finds where the extension of `file_path` starts.
fn find_ext_start(file_path: &str) -> (r: Option<usize>)
    ensures
        (match r {
            Some(s) => ext_start(file_path@) == s as int && s <= file_path@.len(),
            None => ext_start(file_path@) == -1,
        }),
{
    let ghost p = file_path@;
    let n = file_path.unicode_len();
    let mut i: usize = n;
    proof {
        assert(p.take(n as int) =~= p);
    }
    loop
        invariant
            i <= n,
            n == p.len(),
            p == file_path@,
            ext_start(p) == ext_start(p.take(i as int)),
        decreases i,
    {
        let ghost q = p.take(i as int);
        if i < 2 {
            assert(ext_start(q) == -1);
            return None;
        }
        assert(q.len() == i && q.last() == p[i - 1] && q[i - 2] == p[i - 2]);
        let c = file_path.get_char(i - 1);
        if c == '/' || c == '\\' {
            return None;
        }
        if c == '.' {
            let b = file_path.get_char(i - 2);
            if b == '/' || b == '\\' {
                return None;
            }
            return Some(i);
        }
        proof {
            assert(q.drop_last() =~= p.take(i - 1));
        }
        i -= 1;
    }
}

/// Decides whether the extension of `file_path` starting at `start`,
/// lower-cased, is exactly `cand`.
fn ext_matches(file_path: &str, start: usize, cand: &str) -> (r: bool)
    requires
        start <= file_path@.len(),
    ensures
        r == (lower_seq(file_path@.skip(start as int)) == cand@),
{
    let ghost e = lower_seq(file_path@.skip(start as int));
    let n = file_path.unicode_len();
    let m = cand.unicode_len();
    if n - start != m {
        assert(e.len() != cand@.len());
        return false;
    }
    let mut j: usize = 0;
    while j < m
        invariant
            n == file_path@.len(),
            m == cand@.len(),
            start + m == n,
            j <= m,
            e == lower_seq(file_path@.skip(start as int)),
            forall|j2: int| 0 <= j2 < j ==> e[j2] == cand@[j2],
        decreases m - j,
    {
        let c = lower_char_exec(file_path.get_char(start + j));
        if c != cand.get_char(j) {
            assert(e[j as int] != cand@[j as int]);
            return false;
        }
        j += 1;
    }
    assert(e =~= cand@);
    true
}

/// Picks a display icon from the file name's extension, matched
/// case-insensitively.
pub fn get_file_icon(file_path: &str) -> (r: &'static str)
    ensures
        r@ == icon_for(ext_of(file_path@)),
{
    let start = match find_ext_start(file_path) {
        Some(s) => s,
        None => {
            proof {
                lemma_icon_table_literals();
                assert(ext_of(file_path@) == Seq::<char>::empty());
                assert(icon_for(Seq::<char>::empty()) == "📄"@);
            }
            return "📄";
        },
    };
    assert(ext_of(file_path@) == lower_seq(file_path@.skip(start as int)));
    if ext_matches(file_path, start, "txt") || ext_matches(file_path, start, "md") || ext_matches(
        file_path,
        start,
        "log",
    ) {
        proof {
            lemma_icon_table_literals();
        }
        "📄"
    } else if ext_matches(file_path, start, "jpg") || ext_matches(file_path, start, "jpeg")
        || ext_matches(file_path, start, "png") || ext_matches(file_path, start, "gif")
        || ext_matches(file_path, start, "bmp") || ext_matches(file_path, start, "svg") {
        "🖼️"
    } else if ext_matches(file_path, start, "mp4") || ext_matches(file_path, start, "avi")
        || ext_matches(file_path, start, "mkv") || ext_matches(file_path, start, "mov")
        || ext_matches(file_path, start, "wmv") {
        "🎬"
    } else if ext_matches(file_path, start, "mp3") || ext_matches(file_path, start, "wav")
        || ext_matches(file_path, start, "flac") || ext_matches(file_path, start, "aac")
        || ext_matches(file_path, start, "ogg") {
        "🎵"
    } else if ext_matches(file_path, start, "zip") || ext_matches(file_path, start, "rar")
        || ext_matches(file_path, start, "7z") || ext_matches(file_path, start, "tar")
        || ext_matches(file_path, start, "gz") {
        "📦"
    } else if ext_matches(file_path, start, "exe") || ext_matches(file_path, start, "msi")
        || ext_matches(file_path, start, "app") {
        "⚙️"
    } else if ext_matches(file_path, start, "pdf") {
        "📕"
    } else if ext_matches(file_path, start, "doc") || ext_matches(file_path, start, "docx") {
        "📘"
    } else if ext_matches(file_path, start, "xls") || ext_matches(file_path, start, "xlsx") {
        "📗"
    } else if ext_matches(file_path, start, "ppt") || ext_matches(file_path, start, "pptx") {
        "📙"
    } else if ext_matches(file_path, start, "html") || ext_matches(file_path, start, "htm")
        || ext_matches(file_path, start, "css") || ext_matches(file_path, start, "js")
        || ext_matches(file_path, start, "json") || ext_matches(file_path, start, "xml") {
        "🌐"
    } else {
        "📄"
    }
}

/// The concrete characters of every extension in the icon table.
proof fn lemma_icon_table_literals()
    ensures
        "jpg"@ == seq!['j','p','g'],
        "jpeg"@ == seq!['j','p','e','g'],
        "png"@ == seq!['p','n','g'],
        "gif"@ == seq!['g','i','f'],
        "bmp"@ == seq!['b','m','p'],
        "svg"@ == seq!['s','v','g'],
        "mp4"@ == seq!['m','p','4'],
        "avi"@ == seq!['a','v','i'],
        "mkv"@ == seq!['m','k','v'],
        "mov"@ == seq!['m','o','v'],
        "wmv"@ == seq!['w','m','v'],
        "mp3"@ == seq!['m','p','3'],
        "wav"@ == seq!['w','a','v'],
        "flac"@ == seq!['f','l','a','c'],
        "aac"@ == seq!['a','a','c'],
        "ogg"@ == seq!['o','g','g'],
        "zip"@ == seq!['z','i','p'],
        "rar"@ == seq!['r','a','r'],
        "7z"@ == seq!['7','z'],
        "tar"@ == seq!['t','a','r'],
        "gz"@ == seq!['g','z'],
        "exe"@ == seq!['e','x','e'],
        "msi"@ == seq!['m','s','i'],
        "app"@ == seq!['a','p','p'],
        "pdf"@ == seq!['p','d','f'],
        "doc"@ == seq!['d','o','c'],
        "docx"@ == seq!['d','o','c','x'],
        "xls"@ == seq!['x','l','s'],
        "xlsx"@ == seq!['x','l','s','x'],
        "ppt"@ == seq!['p','p','t'],
        "pptx"@ == seq!['p','p','t','x'],
        "html"@ == seq!['h','t','m','l'],
        "htm"@ == seq!['h','t','m'],
        "css"@ == seq!['c','s','s'],
        "js"@ == seq!['j','s'],
        "json"@ == seq!['j','s','o','n'],
        "xml"@ == seq!['x','m','l'],
        "txt"@ == seq!['t','x','t'],
        "md"@ == seq!['m','d'],
        "log"@ == seq!['l','o','g'],
{
    reveal_strlit("jpg");
    reveal_strlit("jpeg");
    reveal_strlit("png");
    reveal_strlit("gif");
    reveal_strlit("bmp");
    reveal_strlit("svg");
    reveal_strlit("mp4");
    reveal_strlit("avi");
    reveal_strlit("mkv");
    reveal_strlit("mov");
    reveal_strlit("wmv");
    reveal_strlit("mp3");
    reveal_strlit("wav");
    reveal_strlit("flac");
    reveal_strlit("aac");
    reveal_strlit("ogg");
    reveal_strlit("zip");
    reveal_strlit("rar");
    reveal_strlit("7z");
    reveal_strlit("tar");
    reveal_strlit("gz");
    reveal_strlit("exe");
    reveal_strlit("msi");
    reveal_strlit("app");
    reveal_strlit("pdf");
    reveal_strlit("doc");
    reveal_strlit("docx");
    reveal_strlit("xls");
    reveal_strlit("xlsx");
    reveal_strlit("ppt");
    reveal_strlit("pptx");
    reveal_strlit("html");
    reveal_strlit("htm");
    reveal_strlit("css");
    reveal_strlit("js");
    reveal_strlit("json");
    reveal_strlit("xml");
    reveal_strlit("txt");
    reveal_strlit("md");
    reveal_strlit("log");
    assert("jpg"@ =~= seq!['j','p','g']);
    assert("jpeg"@ =~= seq!['j','p','e','g']);
    assert("png"@ =~= seq!['p','n','g']);
    assert("gif"@ =~= seq!['g','i','f']);
    assert("bmp"@ =~= seq!['b','m','p']);
    assert("svg"@ =~= seq!['s','v','g']);
    assert("mp4"@ =~= seq!['m','p','4']);
    assert("avi"@ =~= seq!['a','v','i']);
    assert("mkv"@ =~= seq!['m','k','v']);
    assert("mov"@ =~= seq!['m','o','v']);
    assert("wmv"@ =~= seq!['w','m','v']);
    assert("mp3"@ =~= seq!['m','p','3']);
    assert("wav"@ =~= seq!['w','a','v']);
    assert("flac"@ =~= seq!['f','l','a','c']);
    assert("aac"@ =~= seq!['a','a','c']);
    assert("ogg"@ =~= seq!['o','g','g']);
    assert("zip"@ =~= seq!['z','i','p']);
    assert("rar"@ =~= seq!['r','a','r']);
    assert("7z"@ =~= seq!['7','z']);
    assert("tar"@ =~= seq!['t','a','r']);
    assert("gz"@ =~= seq!['g','z']);
    assert("exe"@ =~= seq!['e','x','e']);
    assert("msi"@ =~= seq!['m','s','i']);
    assert("app"@ =~= seq!['a','p','p']);
    assert("pdf"@ =~= seq!['p','d','f']);
    assert("doc"@ =~= seq!['d','o','c']);
    assert("docx"@ =~= seq!['d','o','c','x']);
    assert("xls"@ =~= seq!['x','l','s']);
    assert("xlsx"@ =~= seq!['x','l','s','x']);
    assert("ppt"@ =~= seq!['p','p','t']);
    assert("pptx"@ =~= seq!['p','p','t','x']);
    assert("html"@ =~= seq!['h','t','m','l']);
    assert("htm"@ =~= seq!['h','t','m']);
    assert("css"@ =~= seq!['c','s','s']);
    assert("js"@ =~= seq!['j','s']);
    assert("json"@ =~= seq!['j','s','o','n']);
    assert("xml"@ =~= seq!['x','m','l']);
    assert("txt"@ =~= seq!['t','x','t']);
    assert("md"@ =~= seq!['m','d']);
    assert("log"@ =~= seq!['l','o','g']);
}

} // verus!
