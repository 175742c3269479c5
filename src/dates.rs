use chrono::Datelike;
use vstd::prelude::*;
use vstd::string::StringSliceAdditionalSpecFns;
use vstd::utf8::{encode_utf8, is_char_boundary};

verus! {

/// Why no trade date could be read from a file name.
#[derive(Clone, Copy, Debug, PartialEq, Eq, Structural)]
pub enum TradeDateFromFileErr {
    WrongFileExtension,
    NoStem,
    InvalidUnicode,
    InvalidDate,
}

/// A calendar date.
#[derive(Clone, Copy, Debug, PartialEq, Eq, Structural)]
pub struct TradeDate {
    pub year: i32,
    pub month: u32,
    pub day: u32,
}

pub open spec fn is_leap_year(year: int) -> bool {
    (year % 4 == 0 && year % 100 != 0) || year % 400 == 0
}

pub open spec fn days_in_month(year: int, month: int) -> int {
    if month == 2 {
        if is_leap_year(year) {
            29
        } else {
            28
        }
    } else if month == 4 || month == 6 || month == 9 || month == 11 {
        30
    } else {
        31
    }
}

impl TradeDate {
    /// The date exists in the proleptic Gregorian calendar.
    pub open spec fn wf(&self) -> bool {
        &&& 1 <= self.month <= 12
        &&& 1 <= self.day <= days_in_month(self.year as int, self.month as int)
    }
}

/// The UTF-8 bytes of a string's characters.
pub open spec fn utf8_of(s: Seq<char>) -> Seq<u8> {
    encode_utf8(s)
}

/// The date (year, month, day) that `%Y%m%d` reads from the UTF-8 text `s`,
/// if it reads one.
pub uninterp spec fn yyyymmdd_of(s: Seq<u8>) -> Option<(i32, u32, u32)>;

/// The extension of the last component of the path whose UTF-8 text is `p`.
pub uninterp spec fn extension_of(p: Seq<u8>) -> Option<Seq<u8>>;

/// The stem (name without its extension) of the last component of the path
/// whose UTF-8 text is `p`.
pub uninterp spec fn file_stem_of(p: Seq<u8>) -> Option<Seq<u8>>;

/// Relies on chrono's `NaiveDate::parse_from_str` with the format `%Y%m%d`;
/// a `NaiveDate` is always a date of the calendar.
#[verifier::external_body]
fn parse_yyyymmdd(s: &str) -> (r: Option<TradeDate>)
    ensures
        match yyyymmdd_of(utf8_of(s@)) {
            Some((y, m, d)) => r == Some(TradeDate { year: y, month: m, day: d }),
            None => r is None,
        },
        r matches Some(d) ==> d.wf(),
{
    match chrono::NaiveDate::parse_from_str(s, "%Y%m%d") {
        Ok(d) => Some(TradeDate { year: d.year(), month: d.month(), day: d.day() }),
        Err(_) => None,
    }
}

/// Relies on `std::path::Path::extension`.
#[verifier::external_body]
pub(crate) fn path_extension(p: &str) -> (r: Option<String>)
    ensures
        match extension_of(utf8_of(p@)) {
            Some(e) => r matches Some(s) && utf8_of(s@) == e,
            None => r is None,
        },
{
    match std::path::Path::new(p).extension() {
        Some(e) => Some(e.to_string_lossy().into_owned()),
        None => None,
    }
}

/// Relies on `std::path::Path::file_stem`.
#[verifier::external_body]
fn path_file_stem(p: &str) -> (r: Option<String>)
    ensures
        match file_stem_of(utf8_of(p@)) {
            Some(e) => r matches Some(s) && utf8_of(s@) == e,
            None => r is None,
        },
{
    match std::path::Path::new(p).file_stem() {
        Some(e) => Some(e.to_string_lossy().into_owned()),
        None => None,
    }
}

/// What reading a `%Y%m%d` date from the UTF-8 text `s` gives.
pub open spec fn date_result(s: Seq<u8>) -> Result<TradeDate, TradeDateFromFileErr> {
    match yyyymmdd_of(s) {
        Some((y, m, d)) => Ok(TradeDate { year: y, month: m, day: d }),
        None => Err(TradeDateFromFileErr::InvalidDate),
    }
}

/// Reads a date written as eight digits, year, month and day.
pub fn yyyymmdd_prefix_from_stem(stem: &str) -> (r: Result<TradeDate, TradeDateFromFileErr>)
    ensures
        r == date_result(utf8_of(stem@)),
        r matches Ok(d) ==> d.wf(),
{
    match parse_yyyymmdd(stem) {
        Some(d) => Ok(d),
        None => Err(TradeDateFromFileErr::InvalidDate),
    }
}

pub(crate) fn has_extension(e: &String, wanted: &[u8]) -> (r: bool)
    ensures
        r == (utf8_of(e@) == wanted@),
{
    let b = e.as_str().as_bytes();
    if b.len() != wanted.len() {
        assert(b@.len() != wanted@.len());
        return false;
    }
    let mut i: usize = 0;
    while i < b.len()
        invariant
            b@ == utf8_of(e@),
            b@.len() == wanted@.len(),
            0 <= i <= b@.len(),
            b@.subrange(0, i as int) == wanted@.subrange(0, i as int),
        decreases b@.len() - i,
    {
        if b[i] != wanted[i] {
            assert(b@[i as int] != wanted@[i as int]);
            return false;
        }
        assert(b@.subrange(0, i + 1) =~= b@.subrange(0, i as int).push(b@[i as int]));
        assert(wanted@.subrange(0, i + 1) =~= wanted@.subrange(0, i as int).push(
            wanted@[i as int],
        ));
        i = i + 1;
    }
    assert(b@ =~= b@.subrange(0, i as int));
    assert(wanted@ =~= wanted@.subrange(0, i as int));
    true
}

/// The UTF-8 text of an ASCII word of two letters.
pub open spec fn two_letters(a: char, b: char) -> Seq<u8> {
    seq![a as u8, b as u8]
}

/// What the stem of a file name gives, once its extension was accepted.
pub open spec fn stem_result(p: Seq<u8>) -> Result<TradeDate, TradeDateFromFileErr> {
    match file_stem_of(p) {
        Some(s) => date_result(s),
        None => Err(TradeDateFromFileErr::NoStem),
    }
}

/// Reads the trade date from the name of a tick file, `YYYYMMDD.h5`.
pub fn trade_date_from_h5(h5_path: &str) -> (r: Result<TradeDate, TradeDateFromFileErr>)
    ensures
        r == match extension_of(utf8_of(h5_path@)) {
            Some(e) => if e == two_letters('h', '5') {
                stem_result(utf8_of(h5_path@))
            } else {
                Err(TradeDateFromFileErr::WrongFileExtension)
            },
            None => Err(TradeDateFromFileErr::WrongFileExtension),
        },
        r matches Ok(d) ==> d.wf(),
{
    let h5_array: [u8; 2] = ['h' as u8, '5' as u8];
    let h5 = h5_array.as_slice();
    proof {
        broadcast use vstd::array::group_array_axioms;
        assert(h5@ =~= two_letters('h', '5'));
    }
    match path_extension(h5_path) {
        Some(e) => {
            if !has_extension(&e, h5) {
                return Err(TradeDateFromFileErr::WrongFileExtension);
            }
        },
        None => return Err(TradeDateFromFileErr::WrongFileExtension),
    }
    match path_file_stem(h5_path) {
        Some(stem) => yyyymmdd_prefix_from_stem(stem.as_str()),
        None => Err(TradeDateFromFileErr::NoStem),
    }
}

/// What the first eight bytes of the stem `s` give as a date; a stem that
/// is shorter, or whose eighth byte ends inside a character, gives none.
pub open spec fn prefix_result(s: Seq<u8>) -> Result<TradeDate, TradeDateFromFileErr> {
    if s.len() >= 8 && is_char_boundary(s, 8) {
        date_result(s.subrange(0, 8))
    } else {
        Err(TradeDateFromFileErr::InvalidDate)
    }
}

/// The extensions of a DEEP capture, raw or gzip-compressed.
pub open spec fn is_capture_extension(e: Seq<u8>) -> bool {
    e == seq!['p' as u8, 'c' as u8, 'a' as u8, 'p' as u8] || e == two_letters('g', 'z')
}

/// Reads the trade date from the name of a DEEP capture,
/// `YYYYMMDD_....pcap` or `YYYYMMDD_....gz`.
pub fn trade_date_from_deep_pcap(deep_pcap: &str) -> (r: Result<TradeDate, TradeDateFromFileErr>)
    ensures
        r == match extension_of(utf8_of(deep_pcap@)) {
            Some(e) => if is_capture_extension(e) {
                match file_stem_of(utf8_of(deep_pcap@)) {
                    Some(s) => prefix_result(s),
                    None => Err(TradeDateFromFileErr::NoStem),
                }
            } else {
                Err(TradeDateFromFileErr::WrongFileExtension)
            },
            None => Err(TradeDateFromFileErr::WrongFileExtension),
        },
        r matches Ok(d) ==> d.wf(),
{
    let pcap_array: [u8; 4] = ['p' as u8, 'c' as u8, 'a' as u8, 'p' as u8];
    let gz_array: [u8; 2] = ['g' as u8, 'z' as u8];
    let pcap = pcap_array.as_slice();
    let gz = gz_array.as_slice();
    proof {
        broadcast use vstd::array::group_array_axioms;
        assert(pcap@ =~= seq!['p' as u8, 'c' as u8, 'a' as u8, 'p' as u8]);
        assert(gz@ =~= two_letters('g', 'z'));
    }
    match path_extension(deep_pcap) {
        Some(e) => {
            if !has_extension(&e, pcap) && !has_extension(&e, gz) {
                return Err(TradeDateFromFileErr::WrongFileExtension);
            }
        },
        None => return Err(TradeDateFromFileErr::WrongFileExtension),
    }
    match path_file_stem(deep_pcap) {
        Some(stem) => {
            let s = stem.as_str();
            assert(s.spec_bytes() == utf8_of(stem@));
            if s.as_bytes().len() >= 8 && s.is_char_boundary(8) {
                let (prefix, _) = s.split_at(8);
                assert(utf8_of(prefix@) == utf8_of(stem@).subrange(0, 8));
                yyyymmdd_prefix_from_stem(prefix)
            } else {
                Err(TradeDateFromFileErr::InvalidDate)
            }
        },
        None => Err(TradeDateFromFileErr::NoStem),
    }
}

} // verus!
