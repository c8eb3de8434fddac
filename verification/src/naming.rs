//! The on-disk naming convention for saved photos.
//!
//! A saved photo lands in a fixed subdirectory of the user's picture storage,
//! under the filename `photo_<unix-seconds>.<ext>`, where the extension is
//! chosen from the payload's MIME tag: `jpg` for `image/jpeg`, `png` for
//! `image/png`, and the generic fallback `bin` for anything else. The module
//! also proves the property the convention is chosen for: saves at distinct
//! whole-second timestamps never collide on a filename.

use vstd::prelude::*;

verus! {

use vstd::string::{StrSliceExecFns, StringExecFns};

/// The decimal digit character for `d`; meaningful for `d < 10`.
pub open spec fn digit_char(d: nat) -> char {
    if d == 0 {
        '0'
    } else if d == 1 {
        '1'
    } else if d == 2 {
        '2'
    } else if d == 3 {
        '3'
    } else if d == 4 {
        '4'
    } else if d == 5 {
        '5'
    } else if d == 6 {
        '6'
    } else if d == 7 {
        '7'
    } else if d == 8 {
        '8'
    } else {
        '9'
    }
}

/// The usual decimal rendering of `n`: most significant digit first, no
/// leading zeros (except for `n == 0` itself, rendered as `0`).
pub open spec fn dec_digits(n: nat) -> Seq<char>
    decreases n,
{
    if n < 10 {
        seq![digit_char(n)]
    } else {
        dec_digits(n / 10) + seq![digit_char(n % 10)]
    }
}

/// A one-character string slice for the decimal digit `d`.
fn digit_str(d: u64) -> (s: &'static str)
    requires
        d < 10,
    ensures
        s@ == seq![digit_char(d as nat)],
{
    proof {
        reveal_strlit("0");
        reveal_strlit("1");
        reveal_strlit("2");
        reveal_strlit("3");
        reveal_strlit("4");
        reveal_strlit("5");
        reveal_strlit("6");
        reveal_strlit("7");
        reveal_strlit("8");
        reveal_strlit("9");
    }
    let s: &'static str = match d {
        0 => "0",
        1 => "1",
        2 => "2",
        3 => "3",
        4 => "4",
        5 => "5",
        6 => "6",
        7 => "7",
        8 => "8",
        _ => "9",
    };
    proof {
        assert(s@ =~= seq![digit_char(d as nat)]);
    }
    s
}

/// Renders `n` in decimal, most significant digit first.
pub fn u64_to_decimal(n: u64) -> (s: String)
    ensures
        s@ == dec_digits(n as nat),
    decreases n,
{
    if n < 10 {
        String::from_str(digit_str(n))
    } else {
        let mut s = u64_to_decimal(n / 10);
        s.append(digit_str(n % 10));
        s
    }
}

/// The file extension chosen for a MIME tag: `jpg` and `png` for the two
/// recognised image types, the generic fallback `bin` for everything else.
pub open spec fn spec_extension(mime: Seq<char>) -> Seq<char> {
    if mime == "image/jpeg"@ {
        "jpg"@
    } else if mime == "image/png"@ {
        "png"@
    } else {
        "bin"@
    }
}

/// Character-for-character string comparison.
pub fn str_eq(a: &str, b: &str) -> (r: bool)
    ensures
        r == (a@ == b@),
{
    let a_len = a.unicode_len();
    let b_len = b.unicode_len();
    if a_len != b_len {
        return false;
    }
    let mut i: usize = 0;
    while i < a_len
        invariant
            a_len == a@.len(),
            a_len == b@.len(),
            i <= a_len,
            forall|j: int| 0 <= j < i ==> a@[j] == b@[j],
        decreases a_len - i,
    {
        if a.get_char(i) != b.get_char(i) {
            return false;
        }
        i = i + 1;
    }
    proof {
        assert(a@ =~= b@);
    }
    true
}

/// Maps a MIME tag to the extension a saved photo gets. Unknown tags fall
/// back to the generic `bin` deliberately; they are not an error.
pub fn extension_for_mime(mime: &str) -> (ext: &'static str)
    ensures
        ext@ == spec_extension(mime@),
{
    if str_eq(mime, "image/jpeg") {
        "jpg"
    } else if str_eq(mime, "image/png") {
        "png"
    } else {
        "bin"
    }
}

/// The filename a photo saved at `secs` (whole seconds since the Unix epoch)
/// with MIME tag `mime` gets: `photo_<secs>.<ext>`.
pub open spec fn spec_photo_filename(secs: u64, mime: Seq<char>) -> Seq<char> {
    "photo_"@ + dec_digits(secs as nat) + "."@ + spec_extension(mime)
}

/// Builds the filename for a photo saved at `secs` with MIME tag `mime`.
pub fn photo_filename(secs: u64, mime: &str) -> (name: String)
    ensures
        name@ == spec_photo_filename(secs, mime@),
{
    let mut name = String::from_str("photo_");
    let digits = u64_to_decimal(secs);
    name.append(digits.as_str());
    name.append(".");
    name.append(extension_for_mime(mime));
    name
}

/// The full destination path for a photo saved under directory `dir`:
/// `<dir>/photo_<secs>.<ext>`.
pub open spec fn spec_photo_destination(dir: Seq<char>, secs: u64, mime: Seq<char>) -> Seq<char> {
    dir + "/"@ + spec_photo_filename(secs, mime)
}

/// Joins the destination directory and the timestamped filename.
pub fn photo_destination(dir: &str, secs: u64, mime: &str) -> (path: String)
    ensures
        path@ == spec_photo_destination(dir@, secs, mime@),
{
    let mut path = String::from_str(dir);
    path.append("/");
    let name = photo_filename(secs, mime);
    path.append(name.as_str());
    proof {
        assert(path@ =~= spec_photo_destination(dir@, secs, mime@));
    }
    path
}

/// A decimal rendering has one character for values below ten and at least
/// two from ten upward.
proof fn lemma_dec_digits_len(n: nat)
    ensures
        n < 10 ==> dec_digits(n).len() == 1,
        n >= 10 ==> dec_digits(n).len() >= 2,
    decreases n,
{
    if n >= 10 {
        lemma_dec_digits_len(n / 10);
    }
}

/// Distinct values have distinct decimal renderings.
proof fn lemma_dec_digits_injective(a: nat, b: nat)
    requires
        a != b,
    ensures
        dec_digits(a) != dec_digits(b),
    decreases a + b,
{
    lemma_dec_digits_len(a);
    lemma_dec_digits_len(b);
    if dec_digits(a) == dec_digits(b) {
        if a < 10 && b < 10 {
            assert(dec_digits(a)[0] == dec_digits(b)[0]);
            assert(digit_char(a) != digit_char(b));
        } else if a >= 10 && b >= 10 {
            let qa = a / 10;
            let ra = a % 10;
            let qb = b / 10;
            let rb = b % 10;
            let da = dec_digits(qa);
            let db = dec_digits(qb);
            assert(dec_digits(a) == da + seq![digit_char(ra)]);
            assert(dec_digits(b) == db + seq![digit_char(rb)]);
            assert(da.len() == db.len());
            assert(dec_digits(a)[da.len() as int] == digit_char(ra));
            assert(dec_digits(b)[db.len() as int] == digit_char(rb));
            assert(ra == rb) by {
                if ra != rb {
                    assert(digit_char(ra) != digit_char(rb));
                }
            }
            assert(forall|i: int| 0 <= i < da.len() ==> #[trigger] da[i] == db[i]) by {
                assert(forall|i: int|
                    0 <= i < da.len() ==> #[trigger] da[i] == (da + seq![digit_char(ra)])[i]);
                assert(forall|i: int|
                    0 <= i < db.len() ==> #[trigger] db[i] == (db + seq![digit_char(rb)])[i]);
            }
            assert(da =~= db);
            if qa != qb {
                lemma_dec_digits_injective(qa, qb);
            }
            assert(a == qa * 10 + ra) by {
                vstd::arithmetic::div_mod::lemma_fundamental_div_mod(a as int, 10);
            }
            assert(b == qb * 10 + rb) by {
                vstd::arithmetic::div_mod::lemma_fundamental_div_mod(b as int, 10);
            }
        }
    }
}

/// Filename uniqueness under time progression: photos saved at distinct
/// whole-second timestamps with the same MIME tag get distinct filenames.
pub proof fn lemma_photo_filename_injective(t1: u64, t2: u64, mime: Seq<char>)
    requires
        t1 != t2,
    ensures
        spec_photo_filename(t1, mime) != spec_photo_filename(t2, mime),
{
    lemma_dec_digits_injective(t1 as nat, t2 as nat);
    if spec_photo_filename(t1, mime) == spec_photo_filename(t2, mime) {
        let p = "photo_"@;
        let d1 = dec_digits(t1 as nat);
        let d2 = dec_digits(t2 as nat);
        let tail = "."@ + spec_extension(mime);
        assert(spec_photo_filename(t1, mime) == p + d1 + tail);
        assert(spec_photo_filename(t2, mime) == p + d2 + tail);
        assert(d1.len() == d2.len());
        assert(forall|i: int| 0 <= i < d1.len() ==> #[trigger] d1[i] == d2[i]) by {
            assert(forall|i: int|
                0 <= i < d1.len() ==> #[trigger] d1[i] == (p + d1 + tail)[p.len() + i]);
            assert(forall|i: int|
                0 <= i < d2.len() ==> #[trigger] d2[i] == (p + d2 + tail)[p.len() + i]);
        }
        assert(d1 =~= d2);
    }
}

/// The fixed directory photos are saved under: a subdirectory of the user's
/// picture storage, below the given home directory.
pub open spec fn spec_save_dir(home: Seq<char>) -> Seq<char> {
    home + "/Pictures/tauri_camera_test"@
}

/// Builds the save directory path below the given home directory.
pub fn save_dir(home: &str) -> (dir: String)
    ensures
        dir@ == spec_save_dir(home@),
{
    let mut dir = String::from_str(home);
    dir.append("/Pictures/tauri_camera_test");
    dir
}

} // verus!
