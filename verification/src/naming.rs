//! How the artifacts of one snapshot attempt are named. Every name is a
//! function of the snapshot's identity and of nothing else.

use crate::configuration::{context_text, kind_text, ContextType, SnapshotKind};
use crate::text::{concat2, concat3};
use vstd::prelude::*;
use vstd::string::*;

verus! {

/// A UTC date and time of day to the second, in numbers.
#[derive(Clone, Copy, Debug, PartialEq, Eq, Structural)]
pub struct UtcStamp {
    pub year: i32,
    pub month: u32,
    pub day: u32,
    pub hour: u32,
    pub minute: u32,
    pub second: u32,
}

impl UtcStamp {
    /// Whether the numbers are those of a date and a time of day: a month
    /// from 1 to 12, a day from 1 to 31, an hour up to 23, a minute and a
    /// second up to 59.
    pub open spec fn well_formed(self) -> bool {
        &&& 1 <= self.month <= 12
        &&& 1 <= self.day <= 31
        &&& self.hour <= 23
        &&& self.minute <= 59
        &&& self.second <= 59
    }
}

/// The character of the decimal digit `d`.
pub open spec fn digit(d: nat) -> char {
    if d == 0 {
        '0'
    } else if d == 1 {
        '1'
    } else if d == 2 {
        '2'
    } else if d == 3 {
        '3'
    } else if d == 4 {
        '4'
    } else if d == 5 {
        '5'
    } else if d == 6 {
        '6'
    } else if d == 7 {
        '7'
    } else if d == 8 {
        '8'
    } else {
        '9'
    }
}

/// Whether `c` is a decimal digit.
pub open spec fn is_digit(c: char) -> bool {
    exists|d: nat| d < 10 && c == #[trigger] digit(d)
}

/// `n` in decimal digits, with zeros in front up to `width` digits.
pub open spec fn decimal_text(n: nat, width: nat) -> Seq<char>
    decreases n, width,
{
    if n < 10 && width <= 1 {
        seq![digit(n)]
    } else {
        decimal_text(
            n / 10,
            if width > 0 {
                (width - 1) as nat
            } else {
                0
            },
        ).push(digit(n % 10))
    }
}

/// The year, the month and the day of `stamp` as digits: four or more for
/// the year, behind a `-` where it is negative, and two for each of the
/// others.
pub open spec fn date_digits_text(stamp: UtcStamp) -> Seq<char> {
    (if stamp.year < 0 {
        "-"@ + decimal_text((-stamp.year) as nat, 4)
    } else {
        decimal_text(stamp.year as nat, 4)
    }) + decimal_text(stamp.month as nat, 2) + decimal_text(stamp.day as nat, 2)
}

/// The hour, the minute and the second of `stamp` as digits, two for each.
pub open spec fn time_digits_text(stamp: UtcStamp) -> Seq<char> {
    decimal_text(stamp.hour as nat, 2) + decimal_text(stamp.minute as nat, 2) + decimal_text(
        stamp.second as nat,
        2,
    )
}

/// The name of a snapshot: the prefix, the network, the date and the time,
/// the head of the node and the kind of the snapshot.
pub open spec fn snapshot_name_text(
    network: Seq<char>,
    date: Seq<char>,
    time: Seq<char>,
    head: Seq<char>,
    kind: SnapshotKind,
) -> Seq<char> {
    "tezedge_"@ + network + "_"@ + date + "-"@ + time + "_"@ + head + "_"@ + kind_text(kind)
}

/// The name of the snapshot named `name` while it is being written.
pub open spec fn temp_text(name: Seq<char>) -> Seq<char> {
    name + ".temp"@
}

/// The name of the directory that the helper container exports the snapshot
/// named `name` into.
pub open spec fn export_text(name: Seq<char>) -> Seq<char> {
    name + "-dir.temp"@
}

/// The name of a container of the node on a network.
pub open spec fn container_name_text(base: Seq<char>, network: Seq<char>) -> Seq<char> {
    base + "-"@ + network
}

/// The name of the helper container that makes the consolidated export.
pub open spec fn helper_name_text(context: ContextType, network: Seq<char>) -> Seq<char> {
    "tezedge-snapshots-full-"@ + context_text(context) + "-"@ + network
}

/// The text of the decimal digit `d`.
fn digit_text(d: u64) -> (r: &'static str)
    requires
        d < 10,
    ensures
        r@ == seq![digit(d as nat)],
{
    proof {
        reveal_strlit("0");
        reveal_strlit("1");
        reveal_strlit("2");
        reveal_strlit("3");
        reveal_strlit("4");
        reveal_strlit("5");
        reveal_strlit("6");
        reveal_strlit("7");
        reveal_strlit("8");
        reveal_strlit("9");
    }
    let text: &'static str = if d == 0 {
        "0"
    } else if d == 1 {
        "1"
    } else if d == 2 {
        "2"
    } else if d == 3 {
        "3"
    } else if d == 4 {
        "4"
    } else if d == 5 {
        "5"
    } else if d == 6 {
        "6"
    } else if d == 7 {
        "7"
    } else if d == 8 {
        "8"
    } else {
        "9"
    };
    assert(text@ =~= seq![digit(d as nat)]);
    text
}

/// `n` in decimal digits, with zeros in front up to `width` digits.
pub fn decimal(n: u64, width: usize) -> (r: String)
    ensures
        r@ == decimal_text(n as nat, width as nat),
    decreases n, width,
{
    let last: &'static str = digit_text(n % 10);
    if n < 10 && width <= 1 {
        last.to_owned()
    } else {
        let front: String = decimal(
            n / 10,
            if width > 0 {
                width - 1
            } else {
                0
            },
        );
        let whole: String = concat2(front.as_str(), last);
        assert(whole@ =~= decimal_text(n as nat / 10, if width > 0 {
            (width - 1) as nat
        } else {
            0
        }).push(digit(n as nat % 10)));
        whole
    }
}

/// The year, the month and the day of `stamp` as digits.
pub fn date_digits(stamp: &UtcStamp) -> (r: String)
    ensures
        r@ == date_digits_text(*stamp),
{
    let mut out: String = if stamp.year < 0 {
        let years: String = decimal((0 - (stamp.year as i64)) as u64, 4);
        concat2("-", years.as_str())
    } else {
        decimal(stamp.year as u64, 4)
    };
    let month: String = decimal(stamp.month as u64, 2);
    let day: String = decimal(stamp.day as u64, 2);
    out.append(month.as_str());
    out.append(day.as_str());
    out
}

/// The hour, the minute and the second of `stamp` as digits.
pub fn time_digits(stamp: &UtcStamp) -> (r: String)
    ensures
        r@ == time_digits_text(*stamp),
{
    let mut out: String = decimal(stamp.hour as u64, 2);
    let minute: String = decimal(stamp.minute as u64, 2);
    let second: String = decimal(stamp.second as u64, 2);
    out.append(minute.as_str());
    out.append(second.as_str());
    out
}

/// What one snapshot is named after: the network, the UTC date and time at
/// which its attempt began, to the second, the head block of the node and
/// the kind of the snapshot. The snapshots of one attempt differ in their
/// kind only.
#[derive(Clone, Debug, PartialEq, Eq)]
pub struct SnapshotIdentity {
    pub network: String,
    pub stamp: UtcStamp,
    pub head: String,
    pub kind: SnapshotKind,
}

/// The mathematical content of a `SnapshotIdentity`.
pub struct SnapshotIdentityView {
    pub network: Seq<char>,
    pub stamp: UtcStamp,
    pub head: Seq<char>,
    pub kind: SnapshotKind,
}

impl SnapshotIdentityView {
    /// The name under which the snapshot becomes visible.
    pub open spec fn name(self) -> Seq<char> {
        snapshot_name_text(
            self.network,
            date_digits_text(self.stamp),
            time_digits_text(self.stamp),
            self.head,
            self.kind,
        )
    }
}

impl View for SnapshotIdentity {
    type V = SnapshotIdentityView;

    open spec fn view(&self) -> SnapshotIdentityView {
        SnapshotIdentityView {
            network: self.network@,
            stamp: self.stamp,
            head: self.head@,
            kind: self.kind,
        }
    }
}

impl SnapshotIdentity {
    /// The identity of the snapshot of kind `kind` made on `network` by an
    /// attempt that began at `stamp`, with the node at block `head`.
    pub fn new(network: &str, stamp: UtcStamp, head: &str, kind: SnapshotKind) -> (r:
        SnapshotIdentity)
        ensures
            r@ == (SnapshotIdentityView { network: network@, stamp, head: head@, kind }),
    {
        SnapshotIdentity { network: network.to_owned(), stamp, head: head.to_owned(), kind }
    }

    /// The name under which the snapshot becomes visible.
    pub fn name(&self) -> (r: String)
        ensures
            r@ == self@.name(),
    {
        let date: String = date_digits(&self.stamp);
        let time: String = time_digits(&self.stamp);
        let mut out: String = "tezedge_".to_owned();
        out.append(self.network.as_str());
        out.append("_");
        out.append(date.as_str());
        out.append("-");
        out.append(time.as_str());
        out.append("_");
        out.append(self.head.as_str());
        out.append("_");
        let kind: String = self.kind.to_string();
        out.append(kind.as_str());
        out
    }
}

/// The name of the snapshot named `name` while it is being written.
pub fn temp_name(name: &str) -> (r: String)
    ensures
        r@ == temp_text(name@),
{
    concat2(name, ".temp")
}

/// The name of the directory that the helper container exports the snapshot
/// named `name` into.
pub fn export_name(name: &str) -> (r: String)
    ensures
        r@ == export_text(name@),
{
    concat2(name, "-dir.temp")
}

/// The name of the container `base` of the node on `network`.
pub fn container_name(base: &str, network: &str) -> (r: String)
    ensures
        r@ == container_name_text(base@, network@),
{
    concat3(base, "-", network)
}

/// The name of the helper container for a context kind on `network`.
pub fn helper_name(context: ContextType, network: &str) -> (r: String)
    ensures
        r@ == helper_name_text(context, network@),
{
    let kind: String = context.to_string();
    let mut out: String = "tezedge-snapshots-full-".to_owned();
    out.append(kind.as_str());
    out.append("-");
    out.append(network);
    out
}

/// A number below a hundred takes two digits, and one below ten thousand
/// takes four.
pub proof fn lemma_decimal_width(n: nat)
    ensures
        n < 100 ==> decimal_text(n, 2).len() == 2,
        n < 10000 ==> decimal_text(n, 4).len() == 4,
        n < 100 ==> forall|i: int| 0 <= i < 2 ==> is_digit(#[trigger] decimal_text(n, 2)[i]),
        n < 10000 ==> forall|i: int| 0 <= i < 4 ==> is_digit(#[trigger] decimal_text(n, 4)[i]),
{
    reveal_with_fuel(decimal_text, 5);
    assert(forall|d: nat| d < 10 ==> is_digit(#[trigger] digit(d)));
    if n < 100 {
        let two = decimal_text(n, 2);
        assert(two =~= seq![digit(n / 10), digit(n % 10)]);
    }
    if n < 10000 {
        let four = decimal_text(n, 4);
        assert(four =~= seq![
            digit(n / 1000),
            digit(n / 100 % 10),
            digit(n / 10 % 10),
            digit(n % 10),
        ]);
    }
}

/// The shape of the stamp in a name: a date and a time of day in the years
/// 0 to 9999 are written as eight digits and six digits.
pub proof fn lemma_stamp_is_fourteen_digits(stamp: UtcStamp)
    requires
        stamp.well_formed(),
        0 <= stamp.year <= 9999,
    ensures
        date_digits_text(stamp).len() == 8,
        time_digits_text(stamp).len() == 6,
        forall|i: int| 0 <= i < 8 ==> is_digit(#[trigger] date_digits_text(stamp)[i]),
        forall|i: int| 0 <= i < 6 ==> is_digit(#[trigger] time_digits_text(stamp)[i]),
{
    lemma_decimal_width(stamp.year as nat);
    lemma_decimal_width(stamp.month as nat);
    lemma_decimal_width(stamp.day as nat);
    lemma_decimal_width(stamp.hour as nat);
    lemma_decimal_width(stamp.minute as nat);
    lemma_decimal_width(stamp.second as nat);
    let year = decimal_text(stamp.year as nat, 4);
    let month = decimal_text(stamp.month as nat, 2);
    let day = decimal_text(stamp.day as nat, 2);
    let date = date_digits_text(stamp);
    assert forall|i: int| 0 <= i < 8 implies is_digit(#[trigger] date[i]) by {
        if i < 4 {
            assert(date[i] == year[i]);
        } else if i < 6 {
            assert(date[i] == month[i - 4]);
        } else {
            assert(date[i] == day[i - 6]);
        }
    }
    let hour = decimal_text(stamp.hour as nat, 2);
    let minute = decimal_text(stamp.minute as nat, 2);
    let second = decimal_text(stamp.second as nat, 2);
    let time = time_digits_text(stamp);
    assert forall|i: int| 0 <= i < 6 implies is_digit(#[trigger] time[i]) by {
        if i < 2 {
            assert(time[i] == hour[i]);
        } else if i < 4 {
            assert(time[i] == minute[i - 2]);
        } else {
            assert(time[i] == second[i - 4]);
        }
    }
}

/// Two identities with the same parts give the same name: the name depends on
/// nothing but the network, the date, the time, the head and the kind.
pub proof fn lemma_name_is_function_of_identity(a: SnapshotIdentity, b: SnapshotIdentity)
    requires
        a@ == b@,
    ensures
        a@.name() == b@.name(),
{
}

/// The names of the two snapshots of one attempt differ in the kind at their
/// end and in nothing else.
pub proof fn lemma_names_of_one_attempt_differ_by_kind(
    archive: SnapshotIdentityView,
    full: SnapshotIdentityView,
)
    requires
        archive.kind == SnapshotKind::Archive,
        full.kind == SnapshotKind::Full,
        archive.network == full.network,
        archive.stamp == full.stamp,
        archive.head == full.head,
    ensures
        exists|stem: Seq<char>|
            archive.name() == #[trigger] (stem + "archive"@) && full.name() == stem + "full"@,
{
    let stem = "tezedge_"@ + archive.network + "_"@ + date_digits_text(archive.stamp) + "-"@
        + time_digits_text(archive.stamp) + "_"@ + archive.head + "_"@;
    assert(archive.name() == stem + "archive"@);
    assert(full.name() == stem + "full"@);
}

} // verus!
