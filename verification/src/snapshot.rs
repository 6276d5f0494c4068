use vstd::prelude::*;
use vstd::string::*;
use crate::text::{decimal, render_rssi, signed_decimal};

verus! {

/// A discovered peripheral as the adapter last described it: its address,
/// and what it has advertised so far.
///
/// The address is known as soon as the peripheral is. The name and the
/// signal strength are both `None` while no advertisement data has come.
#[derive(Clone, Debug, PartialEq, Eq)]
pub struct Properties {
    /// The hardware address in its text form.
    pub address: String,
    /// The advertised name, once an advertisement has carried one.
    pub name: Option<String>,
    /// The latest signal strength in dBm, once one has been measured.
    pub rssi: Option<i16>,
}

/// The mathematical content of a [`Properties`].
pub struct PropertiesView {
    pub address: Seq<char>,
    pub name: Option<Seq<char>>,
    pub rssi: Option<i16>,
}

impl View for Properties {
    type V = PropertiesView;

    open spec fn view(&self) -> PropertiesView {
        PropertiesView {
            address: self.address@,
            name: match self.name {
                Some(n) => Some(n@),
                None => None,
            },
            rssi: self.rssi,
        }
    }
}

/// The contents of a list of snapshots, in the same order.
pub open spec fn snapshots_view(snapshots: Seq<Properties>) -> Seq<PropertiesView> {
    Seq::new(snapshots.len(), |i: int| snapshots[i]@)
}

/// The signal column of a listing: the bare integer, or nothing.
pub open spec fn listed_rssi(snapshot: PropertiesView) -> Seq<char> {
    match snapshot.rssi {
        Some(v) => signed_decimal(v as int),
        None => Seq::empty(),
    }
}

/// The name column of a listing: the advertised name, or nothing.
pub open spec fn listed_name(snapshot: PropertiesView) -> Seq<char> {
    match snapshot.name {
        Some(n) => n,
        None => Seq::empty(),
    }
}

/// One line of a listing: address, signal strength and name, separated by
/// tab characters.
pub open spec fn line_text(snapshot: PropertiesView) -> Seq<char> {
    snapshot.address + seq!['\t'] + listed_rssi(snapshot) + seq!['\t'] + listed_name(snapshot)
}

/// The whole listing: one line for each peripheral, in the order given.
pub open spec fn report_text(snapshots: Seq<PropertiesView>) -> Seq<Seq<char>> {
    Seq::new(snapshots.len(), |i: int| line_text(snapshots[i]))
}

/// The texts of a list of strings, in the same order.
pub open spec fn texts(lines: Seq<String>) -> Seq<Seq<char>> {
    Seq::new(lines.len(), |i: int| lines[i]@)
}

/// How often the tab character occurs in `text`.
pub open spec fn tab_count(text: Seq<char>) -> nat
    decreases text.len(),
{
    if text.len() == 0 {
        0
    } else {
        tab_count(text.drop_last()) + if text.last() == '\t' {
            1nat
        } else {
            0nat
        }
    }
}

/// Renders the listing line of one peripheral.
pub fn scan_line(snapshot: &Properties) -> (line: String)
    ensures
        line@ == line_text(snapshot@),
{
    proof {
        reveal_strlit("\t");
    }
    let mut line = String::new();
    line.append(snapshot.address.as_str());
    line.append("\t");
    match snapshot.rssi {
        Some(v) => {
            let signal = render_rssi(v);
            line.append(signal.as_str());
        },
        None => {},
    }
    line.append("\t");
    match &snapshot.name {
        Some(n) => {
            line.append(n.as_str());
        },
        None => {},
    }
    assert(line@ =~= line_text(snapshot@));
    line
}

/// Renders the listing of a scan: one line for each peripheral, in the order
/// in which the adapter reported them.
pub fn scan_report(snapshots: &Vec<Properties>) -> (lines: Vec<String>)
    ensures
        lines@.len() == snapshots@.len(),
        texts(lines@) == report_text(snapshots_view(snapshots@)),
{
    let mut lines: Vec<String> = Vec::new();
    let mut i: usize = 0;
    while i < snapshots.len()
        invariant
            i <= snapshots@.len(),
            lines@.len() == i,
            forall|j: int|
                0 <= j < i ==> (#[trigger] lines@[j])@ == line_text(snapshots@[j]@),
        decreases snapshots@.len() - i,
    {
        lines.push(scan_line(&snapshots[i]));
        i = i + 1;
    }
    assert(texts(lines@) =~= report_text(snapshots_view(snapshots@)));
    lines
}

/// Tabs add up over a concatenation.
pub proof fn tab_count_adds(a: Seq<char>, b: Seq<char>)
    ensures
        tab_count(a + b) == tab_count(a) + tab_count(b),
    decreases b.len(),
{
    if b.len() == 0 {
        assert(a + b =~= a);
    } else {
        assert((a + b).drop_last() =~= a + b.drop_last());
        tab_count_adds(a, b.drop_last());
    }
}

/// A number in base ten holds no tab.
pub proof fn decimal_has_no_tab(n: nat)
    ensures
        tab_count(decimal(n)) == 0,
    decreases n,
{
    if n < 10 {
        assert(decimal(n).drop_last() =~= Seq::<char>::empty());
        assert(tab_count(decimal(n).drop_last()) == 0);
    } else {
        decimal_has_no_tab(n / 10);
        assert(decimal(n).drop_last() =~= decimal(n / 10));
    }
}

/// A listing line begins with the address and holds the two tabs that
/// separate its columns, and beyond them only those of the address and of
/// the name. So a line has exactly three fields wherever neither the address
/// nor the name holds a tab, and an absent signal strength or name leaves
/// its column empty.
pub proof fn line_has_three_fields(snapshot: PropertiesView)
    ensures
        tab_count(line_text(snapshot)) == 2 + tab_count(snapshot.address) + tab_count(
            listed_name(snapshot),
        ),
        tab_count(snapshot.address) == 0 && tab_count(listed_name(snapshot)) == 0 ==> tab_count(
            line_text(snapshot),
        ) == 2,
        snapshot.rssi is None ==> listed_rssi(snapshot).len() == 0,
        snapshot.name is None ==> listed_name(snapshot).len() == 0,
        snapshot.rssi is None && snapshot.name is None ==> line_text(snapshot)
            == snapshot.address + seq!['\t', '\t'],
        line_text(snapshot).len() >= snapshot.address.len() + 2,
        line_text(snapshot).take(snapshot.address.len() as int) == snapshot.address,
{
    let tab = seq!['\t'];
    let address = snapshot.address;
    let signal = listed_rssi(snapshot);
    let name = listed_name(snapshot);
    assert(tab.drop_last() =~= Seq::<char>::empty());
    assert(tab_count(tab.drop_last()) == 0);
    assert(tab_count(tab) == 1);
    assert(tab_count(signal) == 0) by {
        match snapshot.rssi {
            Some(v) => {
                if v < 0 {
                    let sign = seq!['-'];
                    assert(sign.drop_last() =~= Seq::<char>::empty());
                    assert(tab_count(sign.drop_last()) == 0);
                    decimal_has_no_tab((-v) as nat);
                    tab_count_adds(sign, decimal((-v) as nat));
                } else {
                    decimal_has_no_tab(v as nat);
                }
            },
            None => {},
        }
    }
    tab_count_adds(address, tab);
    tab_count_adds(address + tab, signal);
    tab_count_adds(address + tab + signal, tab);
    tab_count_adds(address + tab + signal + tab, name);
    if snapshot.rssi is None && snapshot.name is None {
        assert(line_text(snapshot) =~= address + seq!['\t', '\t']);
    }
    assert(line_text(snapshot).take(address.len() as int) =~= address);
}

} // verus!
