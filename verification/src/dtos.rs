use vstd::prelude::*;

verus! {

use crate::escape::push_char;
use crate::numfmt::i64_to_dec;
use crate::numfmt::spec_idec;

/// One organizing team of a competition, as the remote events feed lists it.
pub struct OrganizerDto {
    pub id: i64,
    pub name: String,
}

impl Clone for OrganizerDto {
    fn clone(&self) -> (r: Self)
        ensures
            r == *self,
    {
        OrganizerDto { id: self.id, name: self.name.clone() }
    }
}

/// The advertised length of a competition, split into whole days and hours.
pub struct DurationDto {
    pub hours: i64,
    pub days: i64,
}

impl Clone for DurationDto {
    fn clone(&self) -> (r: Self)
        ensures
            r == *self,
    {
        DurationDto { hours: self.hours, days: self.days }
    }
}

/// The pretty-printed duration: days then hours, as in "2d 5h".
pub open spec fn spec_pretty_duration(days: int, hours: int) -> Seq<char> {
    spec_idec(days) + seq!['d', ' '] + spec_idec(hours) + seq!['h']
}

impl DurationDto {
    /// Render the duration as "<days>d <hours>h".
    pub fn pretty_print(&self) -> (r: String)
        ensures
            r@ == spec_pretty_duration(self.days as int, self.hours as int),
    {
        let mut out = i64_to_dec(self.days);
        push_char(&mut out, 'd');
        push_char(&mut out, ' ');
        let h = i64_to_dec(self.hours);
        out.append(h.as_str());
        push_char(&mut out, 'h');
        proof {
            assert(out@ =~= spec_pretty_duration(self.days as int, self.hours as int));
        }
        out
    }
}

/// One event exactly as the remote events feed hands it over, before any
/// normalization: the start and finish timestamps are still raw text, and
/// the significance score (a remote-assigned decimal) is kept as the text
/// the caller rendered it to, since the library holds no floating point.
/// Every text field is untrusted and must be escaped before it is embedded
/// in markup.
pub struct EventDto {
    pub organizers: Vec<OrganizerDto>,
    pub ctftime_url: String,
    pub ctf_id: i64,
    pub weight: String,
    pub duration: DurationDto,
    pub live_feed: String,
    pub logo: String,
    pub id: i64,
    pub title: String,
    pub start: String,
    pub participants: i64,
    pub location: String,
    pub finish: String,
    pub description: String,
    pub format: String,
    pub is_votable_now: bool,
    pub prizes: String,
    pub format_id: i64,
    pub onsite: bool,
    pub restrictions: String,
    pub url: String,
    pub public_votable: bool,
}

} // verus!
