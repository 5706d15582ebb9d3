//! The managed peripheral's identity, and the digests of the external
//! control tools' text output that establish or refresh it.
//!
//! The external tools themselves (the Bluetooth control executable and the
//! device-listing executable) are invoked outside the library; their captured
//! output is handed in here as plain text.

use vstd::prelude::*;

use crate::text::after_first;
use crate::text::after_first_trimmed;
use crate::text::after_char_trimmed;
use crate::text::contains_seq;
use crate::text::contains_str;
use crate::text::spec_lines;
use crate::text::split_fields;
use crate::text::split_lines;
use crate::text::ws_fields;

verus! {

/// Marker naming the managed peripheral family in the Bluetooth control
/// tool's device and discovery lines.
pub open spec fn identity_marker() -> Seq<char> {
    seq!['R', 'V', 'L']
}

/// A device line names the peripheral: it carries the family marker and has
/// the hardware address as its second whitespace-separated field.
pub open spec fn line_matches(line: Seq<char>) -> bool {
    contains_seq(line, identity_marker()) && ws_fields(line).len() >= 2
}

/// The hardware address of a matching device line.
pub open spec fn line_identity(line: Seq<char>) -> Seq<char> {
    ws_fields(line)[1]
}

/// The identity yielded by a device or discovery transcript: the address of
/// its first matching line.
pub open spec fn first_identity(lines: Seq<Seq<char>>) -> Option<Seq<char>>
    decreases lines.len(),
{
    if lines.len() == 0 {
        None
    } else if line_matches(lines[0]) {
        Some(line_identity(lines[0]))
    } else {
        first_identity(lines.drop_first())
    }
}

/// The identity recorded from raw control-tool output.
pub open spec fn scan_identity(out: Seq<char>) -> Option<Seq<char>> {
    first_identity(spec_lines(out))
}

/// Marker announcing the first entry in the device-listing tool's output.
pub open spec fn listing_marker() -> Seq<char> {
    seq!['F', 'o', 'u', 'n', 'd', ' ', 'd', 'e', 'v', 'i', 'c', 'e', ' ', '#', '1']
}

/// A listing line announces the device: it carries the listing marker and a
/// colon introducing the device path.
pub open spec fn listing_line_matches(line: Seq<char>) -> bool {
    contains_seq(line, listing_marker()) && after_first(line, ':') is Some
}

/// The device path yielded by a listing transcript: what follows the first
/// colon of its first matching line, with leading whitespace dropped.
pub open spec fn first_device_path(lines: Seq<Seq<char>>) -> Option<Seq<char>>
    decreases lines.len(),
{
    if lines.len() == 0 {
        None
    } else if listing_line_matches(lines[0]) {
        after_first_trimmed(lines[0], ':')
    } else {
        first_device_path(lines.drop_first())
    }
}

/// The device path recorded from raw device-listing output.
pub open spec fn listing_path(out: Seq<char>) -> Option<Seq<char>> {
    first_device_path(spec_lines(out))
}

/// Finds the first line of `out` that names the peripheral and returns its
/// hardware address.
pub fn scan_for_identity(out: &str) -> (r: Option<String>)
    ensures
        r.deep_view() == scan_identity(out@),
{
    let lines = split_lines(out);
    let ghost lv = lines.deep_view();
    let mut i: usize = 0;
    assert(lv.subrange(0, lv.len() as int) =~= lv);
    loop
        invariant
            lines.deep_view() == lv,
            lv == spec_lines(out@),
            lines@.len() == lv.len(),
            0 <= i <= lv.len(),
            first_identity(lv.subrange(i as int, lv.len() as int)) == first_identity(lv),
        decreases lv.len() - i,
    {
        let ghost t = lv.subrange(i as int, lv.len() as int);
        if i == lines.len() {
            assert(t =~= Seq::<Seq<char>>::empty());
            return None;
        }
        let line = &lines[i];
        assert(t[0] == line@);
        let has_marker = contains_str(line.as_str(), "RVL");
        proof {
            reveal_strlit("RVL");
            assert("RVL"@ =~= identity_marker());
        }
        if has_marker {
            let fields = split_fields(line.as_str());
            if fields.len() >= 2 {
                assert(line_matches(t[0]));
                let id = fields[1].clone();
                assert(id@ == line_identity(t[0]));
                return Some(id);
            }
            assert(!line_matches(t[0]));
        } else {
            assert(!line_matches(t[0]));
        }
        assert(t.drop_first() =~= lv.subrange(i + 1, lv.len() as int));
        i = i + 1;
    }
}

/// The managed peripheral: the recorded hardware address, empty while no
/// peripheral is known.
pub struct WiiRemote {
    pub bluetooth_address: String,
}

impl View for WiiRemote {
    type V = Seq<char>;

    open spec fn view(&self) -> Seq<char> {
        self.bluetooth_address@
    }
}

impl WiiRemote {
    /// A session with no recorded peripheral.
    pub fn new() -> (r: WiiRemote)
        ensures
            r@ == Seq::<char>::empty(),
    {
        WiiRemote { bluetooth_address: String::new() }
    }

    /// Digests the paired-device listing of the Bluetooth control tool: true
    /// iff some line names the peripheral, in which case the first such
    /// line's address is recorded; otherwise nothing changes.
    pub fn is_connected(&mut self, devices_output: &str) -> (r: bool)
        ensures
            r == (scan_identity(devices_output@) is Some),
            final(self)@ == match scan_identity(devices_output@) {
                Some(id) => id,
                None => old(self)@,
            },
    {
        match scan_for_identity(devices_output) {
            Some(id) => {
                self.bluetooth_address = id;
                true
            },
            None => false,
        }
    }

    /// Digests a discovery-scan transcript: records the first candidate's
    /// address — clearing any stale address when none is found — and reports
    /// whether a candidate was found. The caller owes a connect command for
    /// the recorded address whenever this returns true; that command's own
    /// outcome is not a failure of this step.
    pub fn try_connect(&mut self, scan_output: &str) -> (r: bool)
        ensures
            r == (scan_identity(scan_output@) is Some),
            final(self)@ == match scan_identity(scan_output@) {
                Some(id) => id,
                None => Seq::<char>::empty(),
            },
    {
        match scan_for_identity(scan_output) {
            Some(id) => {
                self.bluetooth_address = id;
                true
            },
            None => {
                self.bluetooth_address = String::new();
                false
            },
        }
    }

    /// Digests the device-listing tool's output: the device path of the
    /// first listed entry, or `None` when no entry is listed.
    pub fn get_udev_device_path(&self, listing_output: &str) -> (r: Option<String>)
        ensures
            r.deep_view() == listing_path(listing_output@),
    {
        let lines = split_lines(listing_output);
        let ghost lv = lines.deep_view();
        let mut i: usize = 0;
        assert(lv.subrange(0, lv.len() as int) =~= lv);
        loop
            invariant
                lines.deep_view() == lv,
                lv == spec_lines(listing_output@),
                lines@.len() == lv.len(),
                0 <= i <= lv.len(),
                first_device_path(lv.subrange(i as int, lv.len() as int)) == first_device_path(lv),
            decreases lv.len() - i,
        {
            let ghost t = lv.subrange(i as int, lv.len() as int);
            if i == lines.len() {
                assert(t =~= Seq::<Seq<char>>::empty());
                return None;
            }
            let line = &lines[i];
            assert(t[0] == line@);
            let has_marker = contains_str(line.as_str(), "Found device #1");
            proof {
                reveal_strlit("Found device #1");
                assert("Found device #1"@ =~= listing_marker());
            }
            if has_marker {
                let path = after_char_trimmed(line.as_str(), ':');
                match path {
                    Some(p) => {
                        assert(listing_line_matches(t[0]));
                        return Some(p);
                    },
                    None => {
                        assert(!listing_line_matches(t[0]));
                    },
                }
            } else {
                assert(!listing_line_matches(t[0]));
            }
            assert(t.drop_first() =~= lv.subrange(i + 1, lv.len() as int));
            i = i + 1;
        }
    }
}

/// A transcript in which no line matches yields no identity: on every such
/// discovery output, [`WiiRemote::try_connect`] returns false.
pub proof fn lemma_no_match_no_identity(lines: Seq<Seq<char>>)
    requires
        forall|j: int| 0 <= j < lines.len() ==> !line_matches(#[trigger] lines[j]),
    ensures
        first_identity(lines) is None,
    decreases lines.len(),
{
    if lines.len() > 0 {
        lemma_no_match_no_identity(lines.drop_first());
    }
}

/// A listing in which no line announces a device yields no path: no listed
/// entry means none.
pub proof fn lemma_no_listing_no_path(lines: Seq<Seq<char>>)
    requires
        forall|j: int| 0 <= j < lines.len() ==> !listing_line_matches(#[trigger] lines[j]),
    ensures
        first_device_path(lines) is None,
    decreases lines.len(),
{
    if lines.len() > 0 {
        lemma_no_listing_no_path(lines.drop_first());
    }
}

/// When exactly one line of a transcript matches, the identity recorded from
/// it is that line's address field, wherever the line stands.
pub proof fn lemma_single_match_identity(lines: Seq<Seq<char>>, i: int)
    requires
        0 <= i < lines.len(),
        line_matches(lines[i]),
        forall|j: int| 0 <= j < lines.len() && j != i ==> !line_matches(#[trigger] lines[j]),
    ensures
        first_identity(lines) == Some(line_identity(lines[i])),
    decreases i,
{
    if i > 0 {
        assert(!line_matches(lines[0]));
        let t = lines.drop_first();
        assert(t[i - 1] == lines[i]);
        assert(forall|j: int| 0 <= j < t.len() && j != i - 1 ==> #[trigger] t[j] == lines[j + 1]
            && !line_matches(t[j]));
        lemma_single_match_identity(t, i - 1);
    }
}

} // verus!
