//! The human listings of the `parties`, `devices` and `status` commands.
use vstd::prelude::*;
use vstd::string::*;
use crate::config::presence::{Device, Location, Party};
use crate::state::PresenceState;
use crate::text::{
    decimal, join_strings, joined, owned, push_char, push_decimal, push_signed_decimal, signed_decimal, texts,
};

verus! {

/// The parts of a location that are set, in order: building, `Floor n`,
/// room, zone.
pub open spec fn location_parts(loc: Location) -> Seq<Seq<char>> {
    (match loc.building {
        Some(b) => seq![b@],
        None => Seq::empty(),
    }) + (match loc.floor {
        Some(f) => seq!["Floor "@ + decimal(f as nat)],
        None => Seq::empty(),
    }) + (match loc.room {
        Some(r) => seq![r@],
        None => Seq::empty(),
    }) + (match loc.zone {
        Some(z) => seq![z@],
        None => Seq::empty(),
    })
}

/// A location as one line of text: its set parts joined by `, `.
pub fn location_text(loc: &Location) -> (r: String)
    ensures
        r@ == joined(location_parts(*loc), ", "@),
{
    let mut parts: Vec<String> = Vec::new();
    match &loc.building {
        Some(b) => parts.push(b.clone()),
        None => {},
    }
    match loc.floor {
        Some(f) => {
            let mut s = owned("Floor ");
            push_decimal(&mut s, f as u64);
            parts.push(s);
        },
        None => {},
    }
    match &loc.room {
        Some(room) => parts.push(room.clone()),
        None => {},
    }
    match &loc.zone {
        Some(z) => parts.push(z.clone()),
        None => {},
    }
    assert(texts(parts@) =~= location_parts(*loc));
    join_strings(&parts, ", ")
}

/// The `  Location:` line of a listing entry, when there is a location with
/// at least one part set.
pub open spec fn location_line(loc: Option<Location>) -> Seq<char> {
    match loc {
        Some(l) => if location_parts(l).len() > 0 {
            "  Location: "@ + joined(location_parts(l), ", "@) + "\n"@
        } else {
            Seq::empty()
        },
        None => Seq::empty(),
    }
}

fn push_location_line(out: &mut String, loc: &Option<Location>)
    ensures
        final(out)@ == old(out)@ + location_line(*loc),
{
    let ghost start = out@;
    match loc {
        Some(l) => {
            let has_parts = l.building.is_some() || l.floor.is_some() || l.room.is_some() || l.zone.is_some();
            assert(has_parts == (location_parts(*l).len() > 0));
            if has_parts {
                out.append("  Location: ");
                let t = location_text(l);
                out.append(t.as_str());
                out.append("\n");
            }
        },
        None => {},
    }
    assert(out@ =~= start + location_line(*loc));
}

/// One party's entry in the parties listing.
pub open spec fn party_entry(p: Party, show_device_count: bool, show_location: bool) -> Seq<char> {
    "Name: "@ + p.name@ + "\n"@ + (if show_device_count {
        "  Devices: "@ + decimal(p.devices@.len()) + "\n"@
    } else {
        Seq::empty()
    }) + (if show_location {
        location_line(p.location)
    } else {
        Seq::empty()
    }) + "\n"@
}

/// The entries of the first `n` parties.
pub open spec fn party_entries(ps: Seq<Party>, show_device_count: bool, show_location: bool) -> Seq<char>
    decreases ps.len(),
{
    if ps.len() == 0 {
        Seq::empty()
    } else {
        party_entries(ps.drop_last(), show_device_count, show_location) + party_entry(ps.last(), show_device_count, show_location)
    }
}

/// The parties listing: a title, the count, then one entry per party (or a
/// note that there are none).
pub open spec fn parties_text(ps: Seq<Party>, show_device_count: bool, show_location: bool) -> Seq<char> {
    "Configured Parties\n"@ + "==================\n"@ + "Total parties: "@ + decimal(ps.len()) + "\n\n"@ + if ps.len() == 0 {
        "No parties configured."@
    } else {
        party_entries(ps, show_device_count, show_location)
    }
}

/// The human listing of the configured parties, with the device count and
/// location lines when those fields are asked for.
pub fn parties_listing(parties: &Vec<Party>, show_device_count: bool, show_location: bool) -> (r: String)
    ensures
        r@ == parties_text(parties@, show_device_count, show_location),
{
    let mut out = owned("Configured Parties\n");
    out.append("==================\n");
    out.append("Total parties: ");
    push_decimal(&mut out, parties.len() as u64);
    out.append("\n\n");
    if parties.len() == 0 {
        out.append("No parties configured.");
        return out;
    }
    let ghost head = out@;
    let mut i: usize = 0;
    while i < parties.len()
        invariant
            i <= parties@.len(),
            out@ == head + party_entries(parties@.take(i as int), show_device_count, show_location),
        decreases parties@.len() - i,
    {
        let p = &parties[i];
        let ghost before = out@;
        out.append("Name: ");
        out.append(p.name.as_str());
        out.append("\n");
        if show_device_count {
            out.append("  Devices: ");
            push_decimal(&mut out, p.devices.len() as u64);
            out.append("\n");
        }
        if show_location {
            push_location_line(&mut out, &p.location);
        }
        out.append("\n");
        proof {
            assert(out@ =~= before + party_entry(*p, show_device_count, show_location));
            assert(parties@.take(i + 1).drop_last() =~= parties@.take(i as int));
        }
        i = i + 1;
    }
    assert(parties@.take(parties@.len() as int) =~= parties@);
    out
}

/// Every device with the party that owns it, parties in order and each
/// party's devices in order.
pub open spec fn device_entries(ps: Seq<Party>) -> Seq<(Party, Device)>
    decreases ps.len(),
{
    if ps.len() == 0 {
        Seq::empty()
    } else {
        device_entries(ps.drop_last()) + ps.last().devices@.map_values(|d: Device| (ps.last(), d))
    }
}

/// One device's entry in the devices listing; the device's own location,
/// else its party's.
pub open spec fn device_entry(e: (Party, Device), show_identifier_count: bool, show_status: bool, show_location: bool) -> Seq<char> {
    "Name: "@ + e.1.name@ + "\n"@ + (if show_identifier_count {
        "  Identifiers: "@ + decimal(e.1.identifiers@.len()) + "\n"@
    } else {
        Seq::empty()
    }) + (if show_status {
        "  Status: configured\n"@
    } else {
        Seq::empty()
    }) + (if show_location {
        location_line(
            match e.1.location {
                Some(l) => Some(l),
                None => e.0.location,
            },
        )
    } else {
        Seq::empty()
    }) + "\n"@
}

/// The entries of a sequence of devices.
pub open spec fn device_entries_text(es: Seq<(Party, Device)>, show_identifier_count: bool, show_status: bool, show_location: bool) -> Seq<char>
    decreases es.len(),
{
    if es.len() == 0 {
        Seq::empty()
    } else {
        device_entries_text(es.drop_last(), show_identifier_count, show_status, show_location) + device_entry(
            es.last(),
            show_identifier_count,
            show_status,
            show_location,
        )
    }
}

/// The devices listing: a title, the count, then one entry per device (or
/// a note that there are none).
pub open spec fn devices_text(ps: Seq<Party>, show_identifier_count: bool, show_status: bool, show_location: bool) -> Seq<char> {
    let es = device_entries(ps);
    "Configured Devices\n"@ + "==================\n"@ + "Total devices: "@ + decimal(es.len()) + "\n\n"@ + if es.len() == 0 {
        "No devices configured."@
    } else {
        device_entries_text(es, show_identifier_count, show_status, show_location)
    }
}

proof fn lemma_entries_concat(a: Seq<(Party, Device)>, b: Seq<(Party, Device)>, c: bool, s: bool, l: bool)
    ensures
        device_entries_text(a + b, c, s, l) == device_entries_text(a, c, s, l) + device_entries_text(b, c, s, l),
    decreases b.len(),
{
    if b.len() == 0 {
        assert(a + b =~= a);
        assert(device_entries_text(a, c, s, l) + Seq::<char>::empty() =~= device_entries_text(a, c, s, l));
    } else {
        lemma_entries_concat(a, b.drop_last(), c, s, l);
        assert((a + b).drop_last() =~= a + b.drop_last());
        assert((a + b).last() == b.last());
        assert(device_entries_text(a + b, c, s, l) =~= device_entries_text(a, c, s, l) + device_entries_text(b, c, s, l));
    }
}

/// The parts of a device entry, in order.
pub open spec fn device_entry_parts(e: (Party, Device), show_identifier_count: bool, show_status: bool, show_location: bool) -> (Seq<char>, Seq<char>, Seq<char>, Seq<char>) {
    (
        "Name: "@ + e.1.name@ + "\n"@,
        if show_identifier_count {
            "  Identifiers: "@ + decimal(e.1.identifiers@.len()) + "\n"@
        } else {
            Seq::empty()
        },
        if show_status {
            "  Status: configured\n"@
        } else {
            Seq::empty()
        },
        if show_location {
            location_line(
                match e.1.location {
                    Some(l) => Some(l),
                    None => e.0.location,
                },
            )
        } else {
            Seq::empty()
        },
    )
}

fn push_device_entry(out: &mut String, p: &Party, d: &Device, show_identifier_count: bool, show_status: bool, show_location: bool)
    ensures
        final(out)@ == old(out)@ + device_entry((*p, *d), show_identifier_count, show_status, show_location),
{
    let ghost parts = device_entry_parts((*p, *d), show_identifier_count, show_status, show_location);
    let ghost s0 = out@;
    out.append("Name: ");
    out.append(d.name.as_str());
    out.append("\n");
    assert(out@ =~= s0 + parts.0);
    let ghost s1 = out@;
    if show_identifier_count {
        out.append("  Identifiers: ");
        push_decimal(out, d.identifiers.len() as u64);
        out.append("\n");
    }
    assert(out@ =~= s1 + parts.1);
    let ghost s2 = out@;
    if show_status {
        out.append("  Status: configured\n");
    }
    assert(out@ =~= s2 + parts.2);
    let ghost s3 = out@;
    if show_location {
        match &d.location {
            Some(_) => push_location_line(out, &d.location),
            None => push_location_line(out, &p.location),
        }
    }
    assert(out@ =~= s3 + parts.3);
    let ghost s4 = out@;
    out.append("\n");
    assert(device_entry((*p, *d), show_identifier_count, show_status, show_location) =~= parts.0 + parts.1 + parts.2 + parts.3 + "\n"@);
    assert(out@ =~= s0 + (parts.0 + parts.1 + parts.2 + parts.3 + "\n"@));
}

/// The human listing of the configured devices across all parties, with
/// the identifier count, status and location lines when those fields are
/// asked for.
pub fn devices_listing(parties: &Vec<Party>, show_identifier_count: bool, show_status: bool, show_location: bool) -> (r: String)
    requires
        device_entries(parties@).len() <= usize::MAX,
    ensures
        r@ == devices_text(parties@, show_identifier_count, show_status, show_location),
{
    let mut total: usize = 0;
    let mut body = String::new();
    let mut i: usize = 0;
    while i < parties.len()
        invariant
            i <= parties@.len(),
            total == device_entries(parties@.take(i as int)).len(),
            device_entries(parties@).len() <= usize::MAX,
            body@ == device_entries_text(device_entries(parties@.take(i as int)), show_identifier_count, show_status, show_location),
        decreases parties@.len() - i,
    {
        let p = &parties[i];
        let ghost before = body@;
        let ghost prefix = device_entries(parties@.take(i as int));
        let ghost own = p.devices@.map_values(|d: Device| (*p, d));
        proof {
            assert(parties@.take(i + 1).drop_last() =~= parties@.take(i as int));
            assert(device_entries(parties@.take(i + 1)) == prefix + own);
        }
        let mut k: usize = 0;
        while k < p.devices.len()
            invariant
                k <= p.devices@.len(),
                own == p.devices@.map_values(|d: Device| (*p, d)),
                body@ == before + device_entries_text(own.take(k as int), show_identifier_count, show_status, show_location),
            decreases p.devices@.len() - k,
        {
            let d = &p.devices[k];
            let ghost mid = body@;
            push_device_entry(&mut body, p, d, show_identifier_count, show_status, show_location);
            proof {
                assert(own.take(k + 1).drop_last() =~= own.take(k as int));
                assert(own.take(k + 1).last() == (*p, *d));
            }
            k = k + 1;
        }
        proof {
            assert(own.take(p.devices@.len() as int) =~= own);
            lemma_entries_concat(prefix, own, show_identifier_count, show_status, show_location);
            lemma_device_entries_prefix(parties@, i as int + 1);
        }
        total = total + p.devices.len();
        i = i + 1;
    }
    assert(parties@.take(parties@.len() as int) =~= parties@);
    let mut out = owned("Configured Devices\n");
    out.append("==================\n");
    out.append("Total devices: ");
    push_decimal(&mut out, total as u64);
    out.append("\n\n");
    if total == 0 {
        out.append("No devices configured.");
    } else {
        out.append(body.as_str());
    }
    out
}

/// The entries of a prefix of the parties are no more than all of them.
proof fn lemma_device_entries_prefix(ps: Seq<Party>, n: int)
    requires
        0 <= n <= ps.len(),
    ensures
        device_entries(ps.take(n)).len() <= device_entries(ps).len(),
    decreases ps.len() - n,
{
    if n < ps.len() {
        lemma_device_entries_prefix(ps, n + 1);
        assert(ps.take(n + 1).drop_last() =~= ps.take(n));
    } else {
        assert(ps.take(n) =~= ps);
    }
}

/// How long ago a device was last seen, in the largest whole unit:
/// seconds under a minute, minutes under an hour, else hours.
pub open spec fn last_seen(secs: u64) -> Seq<char> {
    if secs < 60 {
        decimal(secs as nat) + "s"@
    } else if secs < 3600 {
        decimal((secs / 60) as nat) + "m"@
    } else {
        decimal((secs / 3600) as nat) + "h"@
    }
}

/// How long ago a device was last seen, in the largest whole unit.
pub fn last_seen_text(secs: u64) -> (r: String)
    ensures
        r@ == last_seen(secs),
{
    let mut r = String::new();
    if secs < 60 {
        push_decimal(&mut r, secs);
        r.append("s");
    } else if secs < 3600 {
        push_decimal(&mut r, secs / 60);
        r.append("m");
    } else {
        push_decimal(&mut r, secs / 3600);
        r.append("h");
    }
    r
}

/// `n` spaces.
pub open spec fn blanks(n: nat) -> Seq<char> {
    Seq::new(n, |i: int| ' ')
}

/// A text left-aligned in a column of `width` characters (`{:<width}`):
/// padded with spaces to the width, never cut.
pub open spec fn padded(t: Seq<char>, width: nat) -> Seq<char> {
    if t.len() < width {
        t + blanks((width - t.len()) as nat)
    } else {
        t
    }
}

/// Appends a text left-aligned in a column of `width` characters.
pub fn push_padded(s: &mut String, t: &str, width: usize)
    ensures
        final(s)@ == old(s)@ + padded(t@, width as nat),
{
    let ghost start = s@;
    s.append(t);
    let mut n = t.unicode_len();
    if n < width {
        let ghost first = n;
        while n < width
            invariant
                first <= n <= width,
                first == t@.len(),
                s@ == start + t@ + blanks((n - first) as nat),
            decreases width - n,
        {
            push_char(s, ' ');
            assert(blanks((n + 1 - first) as nat) =~= blanks((n - first) as nat).push(' '));
            n = n + 1;
        }
    } else {
        assert(s@ =~= start + t@);
    }
    assert(s@ =~= start + padded(t@, width as nat));
}

/// A device of the status listing: its name (may be empty), identifier,
/// state, seconds since it was last seen and last signal strength.
#[derive(Debug, Clone)]
pub struct StatusRow {
    pub name: String,
    pub mac: String,
    pub state: PresenceState,
    pub last_seen_secs: u64,
    pub rssi: i16,
}

/// The word for a presence state.
pub open spec fn state_word(st: PresenceState) -> Seq<char> {
    match st {
        PresenceState::Entered => "Entered"@,
        PresenceState::Exited => "Exited"@,
        PresenceState::Pending => "Pending"@,
    }
}

/// The name shown for a device: its name, or its identifier when it has
/// none.
pub open spec fn shown_name(r: StatusRow) -> Seq<char> {
    if r.name@.len() == 0 {
        r.mac@
    } else {
        r.name@
    }
}

/// The five columns of a status line, 20, 20, 10, 15 and 10 characters
/// wide, separated by single spaces.
pub open spec fn status_columns(
    a: Seq<char>,
    b: Seq<char>,
    c: Seq<char>,
    d: Seq<char>,
    e: Seq<char>,
) -> Seq<char> {
    padded(a, 20) + " "@ + padded(b, 20) + " "@ + padded(c, 10) + " "@ + padded(d, 15) + " "@
        + padded(e, 10) + "\n"@
}

/// The line of one device.
pub open spec fn status_row_line(r: StatusRow) -> Seq<char> {
    status_columns(
        shown_name(r),
        r.mac@,
        state_word(r.state),
        last_seen(r.last_seen_secs),
        signed_decimal(r.rssi as int),
    )
}

/// The lines of the devices, in order.
pub open spec fn status_rows_text(rows: Seq<StatusRow>) -> Seq<char>
    decreases rows.len(),
{
    if rows.len() == 0 {
        Seq::empty()
    } else {
        status_rows_text(rows.drop_last()) + status_row_line(rows.last())
    }
}

/// The head of the `status` text: a heading, then the daemon status and the
/// counts of `n` present devices that are asked for, then an empty line.
pub open spec fn status_head(n: nat, daemon: bool, parties: bool, devices: bool) -> Seq<char> {
    "Presence Status\n================\n"@ + (if daemon {
        "Daemon Status: running\n"@
    } else {
        Seq::empty()
    }) + (if parties {
        "Active Parties: "@ + decimal(n) + "\n"@
    } else {
        Seq::empty()
    }) + (if devices {
        "Active Devices: "@ + decimal(n) + "\n"@
    } else {
        Seq::empty()
    }) + "\n"@
}

/// The table of the present devices: column titles, a rule of 85 dashes,
/// then one line per device.
pub open spec fn status_table(rows: Seq<StatusRow>) -> Seq<char> {
    status_columns("Name"@, "MAC"@, "State"@, "Last Seen"@, "RSSI"@) + Seq::new(85, |i: int| '-')
        + "\n"@ + status_rows_text(rows)
}

/// The human text of the `status` command for the present devices: the
/// head, then either a note that no device is present or the table.
pub open spec fn status_text(rows: Seq<StatusRow>, daemon: bool, parties: bool, devices: bool) -> Seq<char> {
    status_head(rows.len(), daemon, parties, devices) + if rows.len() == 0 {
        "No devices currently present."@
    } else {
        status_table(rows)
    }
}

fn state_name(st: PresenceState) -> (r: &'static str)
    ensures
        r@ == state_word(st),
{
    match st {
        PresenceState::Entered => "Entered",
        PresenceState::Exited => "Exited",
        PresenceState::Pending => "Pending",
    }
}

fn push_status_columns(s: &mut String, a: &str, b: &str, c: &str, d: &str, e: &str)
    ensures
        final(s)@ == old(s)@ + status_columns(a@, b@, c@, d@, e@),
{
    let ghost start = s@;
    push_padded(s, a, 20);
    s.append(" ");
    push_padded(s, b, 20);
    s.append(" ");
    push_padded(s, c, 10);
    s.append(" ");
    push_padded(s, d, 15);
    s.append(" ");
    push_padded(s, e, 10);
    s.append("\n");
    assert(s@ =~= start + status_columns(a@, b@, c@, d@, e@));
}

fn push_status_row(s: &mut String, r: &StatusRow)
    ensures
        final(s)@ == old(s)@ + status_row_line(*r),
{
    let name = if r.name.as_str().is_empty() {
        r.mac.as_str()
    } else {
        r.name.as_str()
    };
    let seen = last_seen_text(r.last_seen_secs);
    let mut rssi = String::new();
    push_signed_decimal(&mut rssi, r.rssi as i64);
    assert(rssi@ =~= signed_decimal(r.rssi as int));
    push_status_columns(s, name, r.mac.as_str(), state_name(r.state), seen.as_str(), rssi.as_str());
}

fn push_count_line(s: &mut String, label: &str, n: usize)
    ensures
        final(s)@ == old(s)@ + label@ + decimal(n as nat) + "\n"@,
{
    let ghost start = s@;
    s.append(label);
    push_decimal(s, n as u64);
    s.append("\n");
    assert(s@ =~= start + label@ + decimal(n as nat) + "\n"@);
}

fn push_status_head(s: &mut String, n: usize, daemon: bool, parties: bool, devices: bool)
    ensures
        final(s)@ == old(s)@ + status_head(n as nat, daemon, parties, devices),
{
    let ghost start = s@;
    s.append("Presence Status\n================\n");
    if daemon {
        s.append("Daemon Status: running\n");
    }
    let ghost a = s@;
    if parties {
        push_count_line(s, "Active Parties: ", n);
    }
    let ghost b = s@;
    if devices {
        push_count_line(s, "Active Devices: ", n);
    }
    let ghost c = s@;
    s.append("\n");
    proof {
        let d: Seq<char> = if daemon { "Daemon Status: running\n"@ } else { Seq::empty() };
        let p: Seq<char> = if parties { "Active Parties: "@ + decimal(n as nat) + "\n"@ } else { Seq::empty() };
        let v: Seq<char> = if devices { "Active Devices: "@ + decimal(n as nat) + "\n"@ } else { Seq::empty() };
        assert(a =~= start + "Presence Status\n================\n"@ + d);
        assert(b =~= a + p);
        assert(c =~= b + v);
        assert(s@ =~= start + status_head(n as nat, daemon, parties, devices));
    }
}

fn push_status_table(s: &mut String, rows: &Vec<StatusRow>)
    ensures
        final(s)@ == old(s)@ + status_table(rows@),
{
    let ghost start = s@;
    push_status_columns(s, "Name", "MAC", "State", "Last Seen", "RSSI");
    let ghost cols = s@;
    let mut k: usize = 0;
    assert(s@ =~= cols + Seq::new(0, |i: int| '-'));
    while k < 85
        invariant
            k <= 85,
            s@ == cols + Seq::new(k as nat, |i: int| '-'),
        decreases 85 - k,
    {
        push_char(s, '-');
        assert(Seq::new((k + 1) as nat, |i: int| '-') =~= Seq::new(k as nat, |i: int| '-').push('-'));
        assert(s@ =~= cols + Seq::new((k + 1) as nat, |i: int| '-'));
        k = k + 1;
    }
    s.append("\n");
    let ghost table_head = s@;
    let mut i: usize = 0;
    assert(rows@.take(0) =~= Seq::<StatusRow>::empty());
    assert(s@ =~= table_head + status_rows_text(rows@.take(0)));
    while i < rows.len()
        invariant
            i <= rows@.len(),
            s@ == table_head + status_rows_text(rows@.take(i as int)),
        decreases rows@.len() - i,
    {
        assert(rows@.take(i + 1).drop_last() =~= rows@.take(i as int));
        push_status_row(s, &rows[i]);
        assert(s@ =~= table_head + status_rows_text(rows@.take(i + 1)));
        i = i + 1;
    }
    assert(rows@.take(rows@.len() as int) =~= rows@);
    assert(s@ =~= start + status_table(rows@));
}

/// The human text of the `status` command: the present devices, and which
/// of the daemon status, party count and device count lines to show.
pub fn status_listing(rows: &Vec<StatusRow>, daemon: bool, parties: bool, devices: bool) -> (r: String)
    ensures
        r@ == status_text(rows@, daemon, parties, devices),
{
    let mut s = String::new();
    push_status_head(&mut s, rows.len(), daemon, parties, devices);
    let ghost head = s@;
    if rows.len() == 0 {
        s.append("No devices currently present.");
    } else {
        push_status_table(&mut s, rows);
    }
    assert(s@ =~= status_text(rows@, daemon, parties, devices));
    s
}

} // verus!
