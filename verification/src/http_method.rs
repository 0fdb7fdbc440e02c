//! The HTTP request methods the parser recognizes, with their wire names.

use vstd::prelude::*;

verus! {

/// An HTTP request method.
#[derive(Clone, Copy, PartialEq, Eq, Structural, Debug)]
pub enum HttpMethod {
    Delete,
    Get,
    Head,
    Post,
    Put,
    Connect,
    Options,
    Trace,
    Copy,
    Lock,
    MKCol,
    Move,
    PropFind,
    PropPatch,
    Search,
    Unlock,
    Report,
    MKActivity,
    Checkout,
    Merge,
    MSearch,
    Notify,
    Subscribe,
    Unsubscribe,
    Patch,
    Purge,
    MKCalendar,
}

/// The wire name of method `m`, as a byte sequence.
pub open spec fn spec_method_name(m: HttpMethod) -> Seq<u8> {
    match m {
        HttpMethod::Delete => seq![('D' as u8), ('E' as u8), ('L' as u8), ('E' as u8), ('T' as u8), ('E' as u8)],
        HttpMethod::Get => seq![('G' as u8), ('E' as u8), ('T' as u8)],
        HttpMethod::Head => seq![('H' as u8), ('E' as u8), ('A' as u8), ('D' as u8)],
        HttpMethod::Post => seq![('P' as u8), ('O' as u8), ('S' as u8), ('T' as u8)],
        HttpMethod::Put => seq![('P' as u8), ('U' as u8), ('T' as u8)],
        HttpMethod::Connect => seq![('C' as u8), ('O' as u8), ('N' as u8), ('N' as u8), ('E' as u8), ('C' as u8), ('T' as u8)],
        HttpMethod::Options => seq![('O' as u8), ('P' as u8), ('T' as u8), ('I' as u8), ('O' as u8), ('N' as u8), ('S' as u8)],
        HttpMethod::Trace => seq![('T' as u8), ('R' as u8), ('A' as u8), ('C' as u8), ('E' as u8)],
        HttpMethod::Copy => seq![('C' as u8), ('O' as u8), ('P' as u8), ('Y' as u8)],
        HttpMethod::Lock => seq![('L' as u8), ('O' as u8), ('C' as u8), ('K' as u8)],
        HttpMethod::MKCol => seq![('M' as u8), ('K' as u8), ('C' as u8), ('O' as u8), ('L' as u8)],
        HttpMethod::Move => seq![('M' as u8), ('O' as u8), ('V' as u8), ('E' as u8)],
        HttpMethod::PropFind => seq![('P' as u8), ('R' as u8), ('O' as u8), ('P' as u8), ('F' as u8), ('I' as u8), ('N' as u8), ('D' as u8)],
        HttpMethod::PropPatch => seq![('P' as u8), ('R' as u8), ('O' as u8), ('P' as u8), ('P' as u8), ('A' as u8), ('T' as u8), ('C' as u8), ('H' as u8)],
        HttpMethod::Search => seq![('S' as u8), ('E' as u8), ('A' as u8), ('R' as u8), ('C' as u8), ('H' as u8)],
        HttpMethod::Unlock => seq![('U' as u8), ('N' as u8), ('L' as u8), ('O' as u8), ('C' as u8), ('K' as u8)],
        HttpMethod::Report => seq![('R' as u8), ('E' as u8), ('P' as u8), ('O' as u8), ('R' as u8), ('T' as u8)],
        HttpMethod::MKActivity => seq![('M' as u8), ('K' as u8), ('A' as u8), ('C' as u8), ('T' as u8), ('I' as u8), ('V' as u8), ('I' as u8), ('T' as u8), ('Y' as u8)],
        HttpMethod::Checkout => seq![('C' as u8), ('H' as u8), ('E' as u8), ('C' as u8), ('K' as u8), ('O' as u8), ('U' as u8), ('T' as u8)],
        HttpMethod::Merge => seq![('M' as u8), ('E' as u8), ('R' as u8), ('G' as u8), ('E' as u8)],
        HttpMethod::MSearch => seq![('M' as u8), ('-' as u8), ('S' as u8), ('E' as u8), ('A' as u8), ('R' as u8), ('C' as u8), ('H' as u8)],
        HttpMethod::Notify => seq![('N' as u8), ('O' as u8), ('T' as u8), ('I' as u8), ('F' as u8), ('Y' as u8)],
        HttpMethod::Subscribe => seq![('S' as u8), ('U' as u8), ('B' as u8), ('S' as u8), ('C' as u8), ('R' as u8), ('I' as u8), ('B' as u8), ('E' as u8)],
        HttpMethod::Unsubscribe => seq![('U' as u8), ('N' as u8), ('S' as u8), ('U' as u8), ('B' as u8), ('S' as u8), ('C' as u8), ('R' as u8), ('I' as u8), ('B' as u8), ('E' as u8)],
        HttpMethod::Patch => seq![('P' as u8), ('A' as u8), ('T' as u8), ('C' as u8), ('H' as u8)],
        HttpMethod::Purge => seq![('P' as u8), ('U' as u8), ('R' as u8), ('G' as u8), ('E' as u8)],
        HttpMethod::MKCalendar => seq![('M' as u8), ('K' as u8), ('C' as u8), ('A' as u8), ('L' as u8), ('E' as u8), ('N' as u8), ('D' as u8), ('A' as u8), ('R' as u8)],
    }
}

impl HttpMethod {
    /// The wire name of this method. Every name has between 3 and 11 bytes.
    pub fn name(self) -> (v: Vec<u8>)
        ensures
            v@ == spec_method_name(self),
            3 <= v@.len() <= 11,
    {
        let mut v: Vec<u8> = Vec::new();
        match self {
            HttpMethod::Delete => { v.push(('D' as u8)); v.push(('E' as u8)); v.push(('L' as u8)); v.push(('E' as u8)); v.push(('T' as u8)); v.push(('E' as u8)); }
            HttpMethod::Get => { v.push(('G' as u8)); v.push(('E' as u8)); v.push(('T' as u8)); }
            HttpMethod::Head => { v.push(('H' as u8)); v.push(('E' as u8)); v.push(('A' as u8)); v.push(('D' as u8)); }
            HttpMethod::Post => { v.push(('P' as u8)); v.push(('O' as u8)); v.push(('S' as u8)); v.push(('T' as u8)); }
            HttpMethod::Put => { v.push(('P' as u8)); v.push(('U' as u8)); v.push(('T' as u8)); }
            HttpMethod::Connect => { v.push(('C' as u8)); v.push(('O' as u8)); v.push(('N' as u8)); v.push(('N' as u8)); v.push(('E' as u8)); v.push(('C' as u8)); v.push(('T' as u8)); }
            HttpMethod::Options => { v.push(('O' as u8)); v.push(('P' as u8)); v.push(('T' as u8)); v.push(('I' as u8)); v.push(('O' as u8)); v.push(('N' as u8)); v.push(('S' as u8)); }
            HttpMethod::Trace => { v.push(('T' as u8)); v.push(('R' as u8)); v.push(('A' as u8)); v.push(('C' as u8)); v.push(('E' as u8)); }
            HttpMethod::Copy => { v.push(('C' as u8)); v.push(('O' as u8)); v.push(('P' as u8)); v.push(('Y' as u8)); }
            HttpMethod::Lock => { v.push(('L' as u8)); v.push(('O' as u8)); v.push(('C' as u8)); v.push(('K' as u8)); }
            HttpMethod::MKCol => { v.push(('M' as u8)); v.push(('K' as u8)); v.push(('C' as u8)); v.push(('O' as u8)); v.push(('L' as u8)); }
            HttpMethod::Move => { v.push(('M' as u8)); v.push(('O' as u8)); v.push(('V' as u8)); v.push(('E' as u8)); }
            HttpMethod::PropFind => { v.push(('P' as u8)); v.push(('R' as u8)); v.push(('O' as u8)); v.push(('P' as u8)); v.push(('F' as u8)); v.push(('I' as u8)); v.push(('N' as u8)); v.push(('D' as u8)); }
            HttpMethod::PropPatch => { v.push(('P' as u8)); v.push(('R' as u8)); v.push(('O' as u8)); v.push(('P' as u8)); v.push(('P' as u8)); v.push(('A' as u8)); v.push(('T' as u8)); v.push(('C' as u8)); v.push(('H' as u8)); }
            HttpMethod::Search => { v.push(('S' as u8)); v.push(('E' as u8)); v.push(('A' as u8)); v.push(('R' as u8)); v.push(('C' as u8)); v.push(('H' as u8)); }
            HttpMethod::Unlock => { v.push(('U' as u8)); v.push(('N' as u8)); v.push(('L' as u8)); v.push(('O' as u8)); v.push(('C' as u8)); v.push(('K' as u8)); }
            HttpMethod::Report => { v.push(('R' as u8)); v.push(('E' as u8)); v.push(('P' as u8)); v.push(('O' as u8)); v.push(('R' as u8)); v.push(('T' as u8)); }
            HttpMethod::MKActivity => { v.push(('M' as u8)); v.push(('K' as u8)); v.push(('A' as u8)); v.push(('C' as u8)); v.push(('T' as u8)); v.push(('I' as u8)); v.push(('V' as u8)); v.push(('I' as u8)); v.push(('T' as u8)); v.push(('Y' as u8)); }
            HttpMethod::Checkout => { v.push(('C' as u8)); v.push(('H' as u8)); v.push(('E' as u8)); v.push(('C' as u8)); v.push(('K' as u8)); v.push(('O' as u8)); v.push(('U' as u8)); v.push(('T' as u8)); }
            HttpMethod::Merge => { v.push(('M' as u8)); v.push(('E' as u8)); v.push(('R' as u8)); v.push(('G' as u8)); v.push(('E' as u8)); }
            HttpMethod::MSearch => { v.push(('M' as u8)); v.push(('-' as u8)); v.push(('S' as u8)); v.push(('E' as u8)); v.push(('A' as u8)); v.push(('R' as u8)); v.push(('C' as u8)); v.push(('H' as u8)); }
            HttpMethod::Notify => { v.push(('N' as u8)); v.push(('O' as u8)); v.push(('T' as u8)); v.push(('I' as u8)); v.push(('F' as u8)); v.push(('Y' as u8)); }
            HttpMethod::Subscribe => { v.push(('S' as u8)); v.push(('U' as u8)); v.push(('B' as u8)); v.push(('S' as u8)); v.push(('C' as u8)); v.push(('R' as u8)); v.push(('I' as u8)); v.push(('B' as u8)); v.push(('E' as u8)); }
            HttpMethod::Unsubscribe => { v.push(('U' as u8)); v.push(('N' as u8)); v.push(('S' as u8)); v.push(('U' as u8)); v.push(('B' as u8)); v.push(('S' as u8)); v.push(('C' as u8)); v.push(('R' as u8)); v.push(('I' as u8)); v.push(('B' as u8)); v.push(('E' as u8)); }
            HttpMethod::Patch => { v.push(('P' as u8)); v.push(('A' as u8)); v.push(('T' as u8)); v.push(('C' as u8)); v.push(('H' as u8)); }
            HttpMethod::Purge => { v.push(('P' as u8)); v.push(('U' as u8)); v.push(('R' as u8)); v.push(('G' as u8)); v.push(('E' as u8)); }
            HttpMethod::MKCalendar => { v.push(('M' as u8)); v.push(('K' as u8)); v.push(('C' as u8)); v.push(('A' as u8)); v.push(('L' as u8)); v.push(('E' as u8)); v.push(('N' as u8)); v.push(('D' as u8)); v.push(('A' as u8)); v.push(('R' as u8)); }
        }
        v
    }
}

} // verus!
