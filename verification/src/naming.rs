//! Names of files, directories and addresses, and the identifiers and times
//! that go into them.

use vstd::prelude::*;

use crate::text::has_prefix;

verus! {

/// What the name of every staging directory begins with.
pub const RESTORE_STAGING_PREFIX: &'static str = ".zhuque_restore_";

/// The layout of the times that go into file names.
pub const TIMESTAMP_FORMAT: &'static str = "%Y%m%d_%H%M%S";

/// A decimal digit.
pub open spec fn is_digit(c: char) -> bool {
    '0' <= c <= '9'
}

/// The number that the two digits from `at` on write.
pub open spec fn two_digits(text: Seq<char>, at: int) -> int {
    10 * (text[at] as int - '0' as int) + (text[at + 1] as int - '0' as int)
}

/// The text of a local time: a year of at least four digits, which may carry a
/// sign, then month, day, an underscore, hour, minute and second of two digits
/// each. The second may be a leap second.
pub open spec fn is_timestamp(text: Seq<char>) -> bool {
    let end = text.len() as int;
    &&& text.len() >= 15
    &&& 1 <= two_digits(text, end - 11) <= 12
    &&& 1 <= two_digits(text, end - 9) <= 31
    &&& 0 <= two_digits(text, end - 6) <= 23
    &&& 0 <= two_digits(text, end - 4) <= 59
    &&& 0 <= two_digits(text, end - 2) <= 60
    &&& text[text.len() - 7] == '_'
    &&& forall|i: int|
        0 <= i < text.len() && i != text.len() - 7 ==> is_digit(#[trigger] text[i]) || (i == 0 && (
        text[i] == '+' || text[i] == '-'))
}

/// `chrono::Local::now` and `DateTime::format`: the local time of the call in
/// the given layout. What the clock shows is left open; of every outcome, the
/// contract says that year, month, day, hour, minute and second stand there as
/// decimal digits, all but the year with two of them and in its range. The call
/// panics on a machine whose clock stands before 1970.
#[verifier::external_body]
fn format_local_time(format: &str) -> (res: String)
    requires
        format@ == TIMESTAMP_FORMAT@,
    ensures
        is_timestamp(res@),
{
    chrono::Local::now().format(format).to_string()
}

/// The local time of the call, as it goes into file names.
pub fn timestamp() -> (res: String)
    ensures
        is_timestamp(res@),
{
    format_local_time(TIMESTAMP_FORMAT)
}

/// The hexadecimal digit of a value below 16.
pub open spec fn hex_char(digit: nat) -> char {
    if digit < 10 {
        (48 + digit) as char
    } else {
        (87 + digit) as char
    }
}

/// The last `width` hexadecimal digits of a number.
pub open spec fn hex_digits(number: nat, width: nat) -> Seq<char>
    decreases width,
{
    if width == 0 {
        Seq::empty()
    } else {
        hex_digits(number / 16, (width - 1) as nat).push(hex_char(number % 16))
    }
}

/// An identifier as 32 hexadecimal digits.
pub open spec fn simple_form(id: u128) -> Seq<char> {
    hex_digits(id as nat, 32)
}

/// An identifier as hexadecimal digits in groups of 8, 4, 4, 4 and 12.
pub open spec fn hyphenated_form(id: u128) -> Seq<char> {
    let digits = simple_form(id);
    digits.subrange(0, 8) + seq!['-'] + digits.subrange(8, 12) + seq!['-'] + digits.subrange(12, 16)
        + seq!['-'] + digits.subrange(16, 20) + seq!['-'] + digits.subrange(20, 32)
}

/// Whether the identifier is marked as a random one: its thirteenth digit is
/// 4, and its seventeenth is 8, 9, a or b.
pub open spec fn is_random_id(id: u128) -> bool {
    &&& (id as nat / 0x1000_0000_0000_0000_0000) % 16 == 4
    &&& 8 <= (id as nat / 0x1000_0000_0000_0000) % 16 < 12
}

/// `uuid::Uuid::new_v4`: a fresh random identifier. Which one is left to
/// chance; the contract says that it carries the marks of a random identifier.
/// The call panics on a machine that gives no random bytes.
#[verifier::external_body]
fn new_v4() -> (id: u128)
    ensures
        is_random_id(id),
{
    uuid::Uuid::new_v4().as_u128()
}

/// `uuid::Uuid` by its `Display`: the identifier in lower case hexadecimal
/// digits, in five groups with hyphens between them.
#[verifier::external_body]
fn hyphenated(id: u128) -> (res: String)
    ensures
        res@ == hyphenated_form(id),
{
    uuid::Uuid::from_u128(id).to_string()
}

/// `uuid::Uuid::simple`: the identifier in lower case hexadecimal digits,
/// without hyphens.
#[verifier::external_body]
fn simple(id: u128) -> (res: String)
    ensures
        res@ == simple_form(id),
{
    uuid::Uuid::from_u128(id).simple().to_string()
}

/// A fresh identifier for a request or a staging directory.
pub fn new_request_id() -> (id: u128)
    ensures
        is_random_id(id),
{
    new_v4()
}

/// The address of the database in a data directory.
pub fn database_url(data_dir: &str) -> (res: String)
    ensures
        res@ == "sqlite://"@ + data_dir@ + "/app.db"@,
{
    "sqlite://".to_owned().concat(data_dir).concat("/app.db")
}

/// The configured data directory, or `./data` where none is configured.
pub fn data_directory(configured: Option<String>) -> (res: String)
    ensures
        configured matches Some(path) ==> res == path,
        configured is None ==> res@ == "./data"@,
{
    match configured {
        Some(path) => path,
        None => "./data".to_owned(),
    }
}

/// The name under which a backup is offered for download.
pub open spec fn backup_name(timestamp: Seq<char>) -> Seq<char> {
    "zhuque_backup_"@ + timestamp + ".tar.gz"@
}

/// The file name of a backup made at the given time.
pub fn backup_filename(timestamp: &str) -> (res: String)
    ensures
        res@ == backup_name(timestamp@),
{
    "zhuque_backup_".to_owned().concat(timestamp).concat(".tar.gz")
}

/// The header value that offers a file for download under a name.
pub open spec fn attachment(filename: Seq<char>) -> Seq<char> {
    "attachment; filename=\""@ + filename + "\""@
}

/// The `Content-Disposition` of a download under the given name.
pub fn content_disposition(filename: &str) -> (res: String)
    ensures
        res@ == attachment(filename@),
{
    "attachment; filename=\"".to_owned().concat(filename).concat("\"")
}

/// The name of the file that takes an upload.
pub open spec fn upload_name(id: u128) -> Seq<char> {
    ".zhuque_uploaded_"@ + hyphenated_form(id) + ".tar.gz"@
}

/// The file name for the upload of the request with this identifier.
pub fn uploaded_filename(id: u128) -> (res: String)
    ensures
        res@ == upload_name(id),
{
    let digits: String = hyphenated(id);
    ".zhuque_uploaded_".to_owned().concat(digits.as_str()).concat(".tar.gz")
}

/// The name of the recovery point that is made before a restore.
pub open spec fn recovery_name(timestamp: Seq<char>, id: u128) -> Seq<char> {
    "zhuque_before_restore_"@ + timestamp + "_"@ + simple_form(id) + ".tar.gz"@
}

/// The file name of the recovery point of the request with this identifier.
pub fn recovery_filename(timestamp: &str, id: u128) -> (res: String)
    ensures
        res@ == recovery_name(timestamp@, id),
{
    let digits: String = simple(id);
    "zhuque_before_restore_".to_owned().concat(timestamp).concat("_").concat(
        digits.as_str(),
    ).concat(".tar.gz")
}

/// The name of the staging directory with this identifier.
pub open spec fn staging_name(id: u128) -> Seq<char> {
    RESTORE_STAGING_PREFIX@ + hyphenated_form(id)
}

/// The directory name for the staging of a backup.
pub fn staging_dirname(id: u128) -> (res: String)
    ensures
        res@ == staging_name(id),
{
    let digits: String = hyphenated(id);
    RESTORE_STAGING_PREFIX.to_owned().concat(digits.as_str())
}

/// Whether an entry of this name in a data directory is a staging directory.
pub open spec fn names_staging(name: Seq<char>) -> bool {
    RESTORE_STAGING_PREFIX@.is_prefix_of(name)
}

/// Whether the name belongs to a staging directory.
pub fn is_restore_staging(name: &str) -> (res: bool)
    ensures
        res == names_staging(name@),
{
    has_prefix(name, RESTORE_STAGING_PREFIX)
}

} // verus!
