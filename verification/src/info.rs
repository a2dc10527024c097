//! System information: the fields that the library reads from the runtime's
//! JSON report, the defaults that stand in for what the report lacks, and
//! the text that states the memory in gigabytes.

use crate::envelope::{Failure, FailureView};
use crate::json::{as_text, as_unsigned, json_of, json_parsed, member, parse_value, Json};
use crate::text::{decimal, decimal_of, digit_char};
use vstd::prelude::*;
use vstd::string::StringExecFns;

verus! {

/// The number of bytes in the unit that the memory is stated in: 1024
/// to the third power.
pub const BYTES_PER_UNIT: u64 = 1_073_741_824;

/// What the report holds under the keys that the library reads: a text
/// where the member is a JSON string, a count where it is an unsigned
/// integer, `None` where the key is missing or its member is of another
/// kind.
#[derive(Clone, Debug, Default, PartialEq, Eq)]
pub struct InfoFields {
    pub server_version: Option<String>,
    pub api_version: Option<String>,
    pub operating_system: Option<String>,
    pub architecture: Option<String>,
    pub mem_total: Option<u64>,
    pub ncpu: Option<u64>,
    pub containers_running: Option<u64>,
    pub containers: Option<u64>,
    pub images: Option<u64>,
}

/// The fields as mathematical values.
pub struct InfoFieldsView {
    pub server_version: Option<Seq<char>>,
    pub api_version: Option<Seq<char>>,
    pub operating_system: Option<Seq<char>>,
    pub architecture: Option<Seq<char>>,
    pub mem_total: Option<u64>,
    pub ncpu: Option<u64>,
    pub containers_running: Option<u64>,
    pub containers: Option<u64>,
    pub images: Option<u64>,
}

impl View for InfoFields {
    type V = InfoFieldsView;

    open spec fn view(&self) -> InfoFieldsView {
        InfoFieldsView {
            server_version: self.server_version.deep_view(),
            api_version: self.api_version.deep_view(),
            operating_system: self.operating_system.deep_view(),
            architecture: self.architecture.deep_view(),
            mem_total: self.mem_total,
            ncpu: self.ncpu,
            containers_running: self.containers_running,
            containers: self.containers,
            images: self.images,
        }
    }
}

/// The system information handed to the caller. Every field is always
/// there: a default stands in for what the runtime did not report.
#[derive(Clone, Debug, PartialEq, Eq)]
pub struct SystemInfo {
    pub version: String,
    pub api_version: String,
    pub os: String,
    pub architecture: String,
    pub memory: String,
    pub cpus: u64,
    pub containers_running: u64,
    pub containers_total: u64,
    pub images: u64,
}

/// The system information as mathematical values.
pub struct SystemInfoView {
    pub version: Seq<char>,
    pub api_version: Seq<char>,
    pub os: Seq<char>,
    pub architecture: Seq<char>,
    pub memory: Seq<char>,
    pub cpus: u64,
    pub containers_running: u64,
    pub containers_total: u64,
    pub images: u64,
}

impl View for SystemInfo {
    type V = SystemInfoView;

    open spec fn view(&self) -> SystemInfoView {
        SystemInfoView {
            version: self.version@,
            api_version: self.api_version@,
            os: self.os@,
            architecture: self.architecture@,
            memory: self.memory@,
            cpus: self.cpus,
            containers_running: self.containers_running,
            containers_total: self.containers_total,
            images: self.images,
        }
    }
}

impl DeepView for SystemInfo {
    type V = SystemInfoView;

    open spec fn deep_view(&self) -> SystemInfoView {
        self@
    }
}

/// `a / d` rounded to the nearest whole number; a value halfway between
/// two goes to the even one.
pub open spec fn round_half_even(a: nat, d: nat) -> nat
    recommends
        d > 0,
{
    let q = a / d;
    let r = a % d;
    if 2 * r < d || (2 * r == d && q % 2 == 0) {
        q
    } else {
        q + 1
    }
}

/// The memory of `bytes` bytes in hundredths of a gigabyte.
pub open spec fn hundredths_of(bytes: nat) -> nat {
    round_half_even(bytes * 100, BYTES_PER_UNIT as nat)
}

/// The hundredths are the nearest to the exact quotient: they miss it by
/// half a hundredth at most.
pub proof fn lemma_hundredths_nearest(bytes: nat)
    ensures
        ({
            let miss = hundredths_of(bytes) * BYTES_PER_UNIT - bytes * 100;
            -BYTES_PER_UNIT <= 2 * miss <= BYTES_PER_UNIT
        }),
{
}

/// A whole number of units is stated as that number with two zeros.
pub proof fn lemma_whole_units(units: nat)
    ensures
        memory_text((units * BYTES_PER_UNIT) as nat) == decimal_of(units) + seq!['.', '0', '0']
            + " GB"@,
{
    assert(hundredths_of((units * BYTES_PER_UNIT) as nat) == units * 100);
    assert(digit_char(0) == '0');
}

/// The text that states `bytes` bytes in gigabytes: the whole gigabytes, a
/// point, two decimal places, a space and the unit.
pub open spec fn memory_text(bytes: nat) -> Seq<char> {
    let h = hundredths_of(bytes);
    decimal_of(h / 100) + seq!['.', digit_char(h / 10 % 10), digit_char(h % 10)] + " GB"@
}

/// States `bytes` bytes in gigabytes, to two decimal places.
pub fn format_memory(bytes: u64) -> (s: String)
    ensures
        s@ == memory_text(bytes as nat),
{
    let unit: u128 = BYTES_PER_UNIT as u128;
    let scaled: u128 = (bytes as u128) * 100;
    let q: u128 = scaled / unit;
    let r: u128 = scaled % unit;
    let h: u128 = if 2 * r < unit || (2 * r == unit && q % 2 == 0) {
        q
    } else {
        q + 1
    };
    assert(h == hundredths_of(bytes as nat));
    let whole: u64 = (h / 100) as u64;
    let tenths: u8 = (h / 10 % 10) as u8;
    let last: u8 = (h % 10) as u8;
    let mut s = decimal(whole);
    s.push('.');
    s.push((48u8 + tenths) as char);
    s.push((48u8 + last) as char);
    let ghost front = s@;
    s.append(" GB");
    assert(front == decimal_of((h / 100) as nat) + seq![
        '.',
        digit_char((h / 10 % 10) as nat),
        digit_char((h % 10) as nat),
    ]);
    s
}

/// The member of the object `doc` under `key`; none where `doc` is no
/// object or has no such key.
pub open spec fn member_of(doc: Json, key: Seq<char>) -> Option<Json> {
    match doc {
        Json::Object(members) => if members.contains_key(key) {
            Some(members[key])
        } else {
            None
        },
        _ => None,
    }
}

/// The text under `key`, where `doc` has a string there.
pub open spec fn text_at(doc: Json, key: Seq<char>) -> Option<Seq<char>> {
    match member_of(doc, key) {
        Some(Json::Text(text)) => Some(text),
        _ => None,
    }
}

/// The count under `key`, where `doc` has an unsigned integer there.
pub open spec fn count_at(doc: Json, key: Seq<char>) -> Option<u64> {
    match member_of(doc, key) {
        Some(Json::Unsigned(n)) => Some(n),
        _ => None,
    }
}

/// What `doc` holds under the nine keys that the library reads.
pub open spec fn fields_of(doc: Json) -> InfoFieldsView {
    InfoFieldsView {
        server_version: text_at(doc, "ServerVersion"@),
        api_version: text_at(doc, "APIVersion"@),
        operating_system: text_at(doc, "OperatingSystem"@),
        architecture: text_at(doc, "Architecture"@),
        mem_total: count_at(doc, "MemTotal"@),
        ncpu: count_at(doc, "NCPU"@),
        containers_running: count_at(doc, "ContainersRunning"@),
        containers: count_at(doc, "Containers"@),
        images: count_at(doc, "Images"@),
    }
}

/// The text of a field, or the word that stands in for a missing one.
pub open spec fn text_or_unknown(field: Option<Seq<char>>) -> Seq<char> {
    match field {
        Some(text) => text,
        None => "Unknown"@,
    }
}

/// The count of a field, or zero for a missing one.
pub open spec fn count_or_zero(field: Option<u64>) -> u64 {
    match field {
        Some(n) => n,
        None => 0,
    }
}

/// The system information that the fields give.
pub open spec fn info_of(fields: InfoFieldsView) -> SystemInfoView {
    SystemInfoView {
        version: text_or_unknown(fields.server_version),
        api_version: text_or_unknown(fields.api_version),
        os: text_or_unknown(fields.operating_system),
        architecture: text_or_unknown(fields.architecture),
        memory: memory_text(count_or_zero(fields.mem_total) as nat),
        cpus: count_or_zero(fields.ncpu),
        containers_running: count_or_zero(fields.containers_running),
        containers_total: count_or_zero(fields.containers),
        images: count_or_zero(fields.images),
    }
}

/// The system information of a report that says nothing.
pub open spec fn default_info() -> SystemInfoView {
    SystemInfoView {
        version: "Unknown"@,
        api_version: "Unknown"@,
        os: "Unknown"@,
        architecture: "Unknown"@,
        memory: "0.00 GB"@,
        cpus: 0,
        containers_running: 0,
        containers_total: 0,
        images: 0,
    }
}

/// What reading the report `text` gives: the system information of the
/// document that the parser makes of it, or the failure to parse it.
pub open spec fn report_of(text: Seq<char>) -> Result<SystemInfoView, FailureView> {
    match json_parsed(text) {
        Some(doc) => Ok(info_of(fields_of(doc))),
        None => Err(FailureView::MalformedInfo),
    }
}

/// Whether `doc` has none of the nine keys that the library reads.
pub open spec fn lacks_every_key(doc: Json) -> bool {
    &&& member_of(doc, "ServerVersion"@) is None
    &&& member_of(doc, "APIVersion"@) is None
    &&& member_of(doc, "OperatingSystem"@) is None
    &&& member_of(doc, "Architecture"@) is None
    &&& member_of(doc, "MemTotal"@) is None
    &&& member_of(doc, "NCPU"@) is None
    &&& member_of(doc, "ContainersRunning"@) is None
    &&& member_of(doc, "Containers"@) is None
    &&& member_of(doc, "Images"@) is None
}

/// A document that has none of the nine keys gives the default for every
/// field. So does a value that is no object at all.
pub proof fn lemma_missing_keys_give_defaults(doc: Json)
    requires
        lacks_every_key(doc),
    ensures
        info_of(fields_of(doc)) == default_info(),
{
    lemma_no_memory();
}

/// No memory at all is stated as `0.00 GB`.
pub proof fn lemma_no_memory()
    ensures
        memory_text(0) == "0.00 GB"@,
{
    reveal_strlit(" GB");
    reveal_strlit("0.00 GB");
    assert(hundredths_of(0) == 0);
    assert(decimal_of(0) == seq![digit_char(0)]);
    assert(digit_char(0) == '0');
    assert(memory_text(0) == "0.00 GB"@);
}

fn text_field(doc: &serde_json::Value, key: &str) -> (field: Option<String>)
    ensures
        field.deep_view() == text_at(json_of(*doc), key@),
{
    match member(doc, key) {
        Some(found) => match as_text(found) {
            Some(text) => Some(text.to_owned()),
            None => None,
        },
        None => None,
    }
}

fn count_field(doc: &serde_json::Value, key: &str) -> (field: Option<u64>)
    ensures
        field == count_at(json_of(*doc), key@),
{
    match member(doc, key) {
        Some(found) => as_unsigned(found),
        None => None,
    }
}

fn read_fields(doc: &serde_json::Value) -> (fields: InfoFields)
    ensures
        fields@ == fields_of(json_of(*doc)),
{
    InfoFields {
        server_version: text_field(doc, "ServerVersion"),
        api_version: text_field(doc, "APIVersion"),
        operating_system: text_field(doc, "OperatingSystem"),
        architecture: text_field(doc, "Architecture"),
        mem_total: count_field(doc, "MemTotal"),
        ncpu: count_field(doc, "NCPU"),
        containers_running: count_field(doc, "ContainersRunning"),
        containers: count_field(doc, "Containers"),
        images: count_field(doc, "Images"),
    }
}

fn or_unknown(field: Option<String>) -> (text: String)
    ensures
        text@ == text_or_unknown(field.deep_view()),
{
    match field {
        Some(text) => text,
        None => "Unknown".to_owned(),
    }
}

fn or_zero(field: Option<u64>) -> (n: u64)
    ensures
        n == count_or_zero(field),
{
    match field {
        Some(n) => n,
        None => 0,
    }
}

impl SystemInfo {
    /// Puts the defaults in the place of the fields that are missing, and
    /// states the memory in gigabytes.
    pub fn from_fields(fields: InfoFields) -> (info: SystemInfo)
        ensures
            info@ == info_of(fields@),
    {
        SystemInfo {
            version: or_unknown(fields.server_version),
            api_version: or_unknown(fields.api_version),
            os: or_unknown(fields.operating_system),
            architecture: or_unknown(fields.architecture),
            memory: format_memory(or_zero(fields.mem_total)),
            cpus: or_zero(fields.ncpu),
            containers_running: or_zero(fields.containers_running),
            containers_total: or_zero(fields.containers),
            images: or_zero(fields.images),
        }
    }
}

/// Reads the runtime's system report. Fails only where `text` as a whole is
/// not JSON: a field that is missing or of another kind gets its default.
pub fn parse_info(text: &str) -> (report: Result<SystemInfo, Failure>)
    ensures
        match report_of(text@) {
            Ok(info) => report matches Ok(read) && read@ == info,
            Err(failure) => report matches Err(found) && found@ == failure,
        },
{
    match parse_value(text) {
        Ok(doc) => Ok(SystemInfo::from_fields(read_fields(&doc))),
        Err(_) => Err(Failure::MalformedInfo),
    }
}

} // verus!
