//! Where an uploaded image is stored: a directory per UTC calendar day, a
//! random file name, and an extension chosen from the declared MIME type.

use vstd::prelude::*;
use crate::text::{append_decimal, decimal, opt_view};
use vstd::string::StrSliceExecFns;

verus! {

broadcast use vstd::string::group_string_axioms;

/// The file extension that mime2ext gives for a MIME type, if it knows one.
pub uninterp spec fn mime_extension_of(mime: Seq<char>) -> Option<Seq<char>>;

/// Relies on `mime2ext::mime2ext`, a table lookup on the MIME type alone; its
/// source gives `None` for a type without `/`.
#[verifier::external_body]
fn get_extension_from_mime(mime_type_str: &str) -> (r: Option<String>)
    ensures
        opt_view(r) == mime_extension_of(mime_type_str@),
        !mime_type_str@.contains('/') ==> r is None,
{
    mime2ext::mime2ext(mime_type_str).map(|ext| ext.to_string())
}

/// A day of the proleptic Gregorian calendar.
pub struct CalendarDate {
    pub year: i32,
    pub month: u32,
    pub day: u32,
}

/// Relies on `chrono::Utc::now` for the current day in UTC, and on
/// `Datelike::month` (1 to 12) and `Datelike::day` (1 to 31) to read it.
#[verifier::external_body]
fn today_utc() -> (r: CalendarDate)
    ensures
        1 <= r.month <= 12,
        1 <= r.day <= 31,
{
    let d = chrono::Utc::now().date_naive();
    CalendarDate { year: chrono::Datelike::year(&d), month: chrono::Datelike::month(&d), day: chrono::Datelike::day(&d) }
}

/// Relies on `uuid::Uuid::new_v4`, a random identifier, written in its
/// hyphenated form of 36 characters.
#[verifier::external_body]
fn new_file_id() -> (r: String)
    ensures
        r@.len() == 36,
{
    uuid::Uuid::new_v4().to_string()
}

/// `n` in decimal, zero-padded on the left to `width` digits.
pub open spec fn padded(n: nat, width: nat) -> Seq<char> {
    let d = decimal(n);
    if d.len() < width {
        Seq::new((width - d.len()) as nat, |i: int| '0') + d
    } else {
        d
    }
}

/// The year as chrono's `%Y` writes it: four digits within 0 to 9999, else
/// a sign followed by at least four digits.
pub open spec fn year_text(y: int) -> Seq<char> {
    if 0 <= y < 10000 {
        padded(y as nat, 4)
    } else if y >= 10000 {
        "+"@ + padded(y as nat, 4)
    } else {
        "-"@ + padded((-y) as nat, 4)
    }
}

/// The directory of a day: `%Y/%m/%d`.
pub open spec fn date_path_of(d: CalendarDate) -> Seq<char> {
    year_text(d.year as int) + "/"@ + padded(d.month as nat, 2) + "/"@ + padded(d.day as nat, 2)
}

/// The extension a file is stored with: the one of its MIME type, `dat`
/// when the type has none.
pub open spec fn extension_for(mime: Seq<char>) -> Seq<char> {
    match mime_extension_of(mime) {
        Some(e) => e,
        None => "dat"@,
    }
}

/// Where an upload is stored: its directory under the upload root, its file
/// name, and the path under which the site serves it.
pub struct UploadTarget {
    pub dir: String,
    pub file_name: String,
    pub public_path: String,
}

/// `t` is the target for a file of type `mime` stored on day `d` under the
/// identifier `id`.
pub open spec fn is_target(t: UploadTarget, mime: Seq<char>, d: CalendarDate, id: Seq<char>) -> bool {
    &&& t.dir@ == date_path_of(d)
    &&& t.file_name@ == id + "."@ + extension_for(mime)
    &&& t.public_path@ == "/images/"@ + t.dir@ + "/"@ + t.file_name@
}

/// Appends `n` zero-padded to `width` digits.
fn append_padded(s: &mut String, n: u64, width: u64)
    ensures
        final(s)@ == old(s)@ + padded(n as nat, width as nat),
{
    let mut digits = String::new();
    append_decimal(&mut digits, n);
    let count = digits.as_str().unicode_len() as u64;
    let ghost start = s@;
    if count < width {
        let mut i: u64 = 0;
        while i < width - count
            invariant
                count < width,
                i <= width - count,
                s@ == start + Seq::new(i as nat, |k: int| '0'),
            decreases width - count - i,
        {
            s.append("0");
            proof { reveal_strlit("0"); }
            i = i + 1;
            assert(s@ =~= start + Seq::new(i as nat, |k: int| '0'));
        }
    }
    s.append(digits.as_str());
    assert(s@ =~= start + padded(n as nat, width as nat));
}

/// The directory of day `d`, as chrono formats `%Y/%m/%d`.
pub fn date_path(d: &CalendarDate) -> (r: String)
    ensures
        r@ == date_path_of(*d),
{
    let mut s = String::new();
    let y = d.year as i64;
    if 0 <= y && y < 10000 {
        append_padded(&mut s, y as u64, 4);
    } else if y >= 10000 {
        s.append("+");
        append_padded(&mut s, y as u64, 4);
    } else {
        s.append("-");
        append_padded(&mut s, (-y) as u64, 4);
    }
    s.append("/");
    append_padded(&mut s, d.month as u64, 2);
    s.append("/");
    append_padded(&mut s, d.day as u64, 2);
    s
}

/// The extension for a file of MIME type `content_type`: the one mime2ext
/// gives, or `dat`.
pub fn file_extension(content_type: &str) -> (r: String)
    ensures
        r@ == extension_for(content_type@),
{
    match get_extension_from_mime(content_type) {
        Some(e) => e,
        None => String::from_str("dat"),
    }
}

/// The target for a file of type `content_type` stored on day `d` under the
/// identifier `file_id`.
pub fn upload_target(content_type: &str, d: &CalendarDate, file_id: &str) -> (r: UploadTarget)
    ensures
        is_target(r, content_type@, *d, file_id@),
{
    let dir = date_path(d);
    let mut file_name = String::from_str(file_id);
    file_name.append(".");
    let ext = file_extension(content_type);
    file_name.append(ext.as_str());
    let mut public_path = String::from_str("/images/");
    public_path.append(dir.as_str());
    public_path.append("/");
    public_path.append(file_name.as_str());
    UploadTarget { dir, file_name, public_path }
}

/// The target for a file of type `content_type` uploaded now: today's
/// directory (UTC) and a fresh random identifier.
pub fn plan_upload(content_type: &str) -> (r: UploadTarget)
    ensures
        exists|d: CalendarDate, id: Seq<char>|
            1 <= d.month <= 12 && 1 <= d.day <= 31 && id.len() == 36 && #[trigger] is_target(r, content_type@, d, id),
{
    let d = today_utc();
    let id = new_file_id();
    let r = upload_target(content_type, &d, id.as_str());
    assert(is_target(r, content_type@, d, id@));
    r
}

} // verus!
