use vstd::prelude::*;
use vstd::string::*;
use crate::answer::DeviceType;
use crate::case::{to_uppercase, uppercase};
use crate::number::{parse_u32, parse_unsigned};
use crate::text::{
    contains, contains_seq, lines, second_field, split_on, text_eq, text_lines, text_words, trim,
    trimmed, words,
};

verus! {

/// One disk as `lsblk -d -o NAME,TRAN` lists it.
pub struct LsblkRow {
    pub name: String,
    pub transport: String,
}

impl View for LsblkRow {
    type V = (Seq<char>, Seq<char>);

    open spec fn view(&self) -> Self::V {
        (self.name@, self.transport@)
    }
}

/// The rows among `lines` that have at least two words, as their first two words.
pub open spec fn rows_of(lines: Seq<Seq<char>>) -> Seq<(Seq<char>, Seq<char>)>
    decreases lines.len(),
{
    if lines.len() == 0 {
        seq![]
    } else {
        let w = text_words(lines[0]);
        let rest = rows_of(lines.drop_first());
        if w.len() >= 2 {
            seq![(w[0], w[1])] + rest
        } else {
            rest
        }
    }
}

/// The disks in the output of `lsblk -d -o NAME,TRAN`: every line after the
/// header with at least two words gives its first word as the name and the
/// second as the transport.
pub open spec fn lsblk_disks(output: Seq<char>) -> Seq<(Seq<char>, Seq<char>)> {
    let ls = text_lines(output);
    if ls.len() == 0 {
        seq![]
    } else {
        rows_of(ls.drop_first())
    }
}

/// Reads the disks from the output of `lsblk -d -o NAME,TRAN`.
pub fn parse_lsblk(output: &str) -> (r: Vec<LsblkRow>)
    ensures
        r@.map_values(|row: LsblkRow| row@) == lsblk_disks(output@),
{
    let ls = lines(output);
    let n = ls.len();
    let ghost all = ls.deep_view();
    let mut out: Vec<LsblkRow> = Vec::new();
    if n == 0 {
        assert(out@.map_values(|row: LsblkRow| row@) =~= seq![]);
        return out;
    }
    let mut i: usize = 1;
    while i < n
        invariant
            n == all.len(),
            all == ls.deep_view(),
            all == text_lines(output@),
            1 <= i <= n,
            out@.map_values(|row: LsblkRow| row@) + rows_of(all.subrange(i as int, n as int))
                == rows_of(all.drop_first()),
        decreases n - i,
    {
        let ghost before = out@.map_values(|row: LsblkRow| row@);
        assert(all.subrange(i as int, n as int).drop_first() =~= all.subrange(i + 1, n as int));
        assert(all.subrange(i as int, n as int)[0] == ls@[i as int]@);
        let w = words(ls[i].as_str());
        if w.len() >= 2 {
            let row = LsblkRow { name: w[0].clone(), transport: w[1].clone() };
            assert(row@ == (w.deep_view()[0], w.deep_view()[1]));
            out.push(row);
            assert(out@.map_values(|row: LsblkRow| row@) =~= before.push(row@));
        }
        i = i + 1;
    }
    assert(all.subrange(n as int, n as int) =~= seq![]);
    assert(all.subrange(1, n as int) =~= all.drop_first());
    assert(out@.map_values(|row: LsblkRow| row@) + seq![] =~= out@.map_values(
        |row: LsblkRow| row@,
    ));
    out
}

/// Whether the user is asked for the kind of the disk: only for USB.
pub fn asks_device_type(transport: &str) -> (r: bool)
    ensures
        r == (transport@ == "usb"@),
{
    text_eq(transport, "usb")
}

/// The line that names a disk in the menu.
pub open spec fn disk_label_text(
    name: Seq<char>,
    model: Seq<char>,
    device_type: DeviceType,
    transport: Seq<char>,
) -> Seq<char> {
    "/dev/"@ + name + " - "@ + model + " - "@ + device_type.spec_label() + " - "@ + uppercase(
        transport,
    )
}

/// `/dev/<name> - <model> - <type> - <TRANSPORT>`.
pub fn disk_label(name: &str, model: &str, device_type: DeviceType, transport: &str) -> (r: String)
    ensures
        r@ == disk_label_text(name@, model@, device_type, transport@),
{
    let up = to_uppercase(transport);
    disk_label_shown(name, model, device_type, up.as_str())
}

/// `/dev/<name> - <model> - <type> - <shown>`, for a transport already
/// written as it is shown.
pub fn disk_label_shown(name: &str, model: &str, device_type: DeviceType, shown: &str) -> (r: String)
    ensures
        r@ == "/dev/"@ + name@ + " - "@ + model@ + " - "@ + device_type.spec_label() + " - "@ + shown@,
{
    let mut s = String::from_str("/dev/");
    s.append(name);
    s.append(" - ");
    s.append(model);
    s.append(" - ");
    s.append(device_type.label());
    s.append(" - ");
    s.append(shown);
    s
}

/// The kind that an `hdparm -I` rotation rate gives, or `before` when it
/// gives none: "Solid State Device" is an SSD, a positive rate is an HDD.
pub open spec fn rotation_type(rate: Seq<char>, before: DeviceType) -> DeviceType {
    if rate == "Solid State Device"@ {
        DeviceType::Ssd
    } else {
        match parse_unsigned(rate, u32::MAX as nat) {
            Ok(k) => if k > 0 {
                DeviceType::Hdd
            } else {
                before
            },
            Err(_) => before,
        }
    }
}

/// The trimmed text after the first `:` of a line (up to a second `:`).
pub open spec fn colon_value(line: Seq<char>) -> Option<Seq<char>> {
    if split_on(line, ':').len() > 1 {
        Some(trimmed(split_on(line, ':')[1]))
    } else {
        None
    }
}

/// The model and kind after reading `lines` in order from `(model, kind)`:
/// a line holding "Model Number" sets the model, a line holding
/// "Rotation Rate" may set the kind; the last such line wins.
pub open spec fn hdparm_scan(lines: Seq<Seq<char>>, model: Seq<char>, kind: DeviceType) -> (
    Seq<char>,
    DeviceType,
)
    decreases lines.len(),
{
    if lines.len() == 0 {
        (model, kind)
    } else {
        let l = lines[0];
        let model2 = if contains_seq(l, "Model Number"@) && colon_value(l) is Some {
            colon_value(l)->0
        } else {
            model
        };
        let kind2 = if contains_seq(l, "Rotation Rate"@) && colon_value(l) is Some {
            rotation_type(colon_value(l)->0, kind)
        } else {
            kind
        };
        hdparm_scan(lines.drop_first(), model2, kind2)
    }
}

/// What `hdparm -I` output tells of a disk: its model and kind, when a
/// model other than "Unknown Model" was found.
pub open spec fn hdparm_disk(output: Seq<char>) -> Option<(Seq<char>, DeviceType)> {
    let (model, kind) = hdparm_scan(text_lines(output), "Unknown Model"@, DeviceType::Unknown);
    if model != "Unknown Model"@ {
        Some((model, kind))
    } else {
        None
    }
}

/// The trimmed text after the first `:` of `line`, if it has one.
fn colon_value_of(line: &str) -> (r: Option<String>)
    ensures
        match r {
            Some(v) => colon_value(line@) == Some(v@),
            None => colon_value(line@) is None,
        },
{
    match second_field(line, ':') {
        Some(f) => Some(trim(f.as_str())),
        None => None,
    }
}

fn rotation_type_of(rate: &str, before: DeviceType) -> (r: DeviceType)
    ensures
        r == rotation_type(rate@, before),
{
    if text_eq(rate, "Solid State Device") {
        DeviceType::Ssd
    } else {
        match parse_u32(rate) {
            Ok(k) => if k > 0 {
                DeviceType::Hdd
            } else {
                before
            },
            Err(_) => before,
        }
    }
}

/// Reads the model and kind of a disk from the output of `hdparm -I`.
pub fn parse_hdparm(output: &str) -> (r: Option<(String, DeviceType)>)
    ensures
        match hdparm_disk(output@) {
            Some((m, k)) => r matches Some((rm, rk)) && rm@ == m && rk == k,
            None => r is None,
        },
{
    let ls = lines(output);
    let n = ls.len();
    let ghost all = ls.deep_view();
    let mut model = String::from_str("Unknown Model");
    let mut kind = DeviceType::Unknown;
    let mut i: usize = 0;
    assert(all.subrange(0, n as int) =~= all);
    while i < n
        invariant
            n == all.len(),
            all == ls.deep_view(),
            all == text_lines(output@),
            i <= n,
            hdparm_scan(all.subrange(i as int, n as int), model@, kind) == hdparm_scan(
                all,
                "Unknown Model"@,
                DeviceType::Unknown,
            ),
        decreases n - i,
    {
        assert(all.subrange(i as int, n as int).drop_first() =~= all.subrange(i + 1, n as int));
        let line = ls[i].as_str();
        assert(all.subrange(i as int, n as int)[0] == line@);
        if contains(line, "Model Number") {
            match colon_value_of(line) {
                Some(v) => {
                    model = v;
                },
                None => {},
            }
        }
        if contains(line, "Rotation Rate") {
            match colon_value_of(line) {
                Some(v) => {
                    kind = rotation_type_of(v.as_str(), kind);
                },
                None => {},
            }
        }
        i = i + 1;
    }
    if text_eq(model.as_str(), "Unknown Model") {
        None
    } else {
        Some((model, kind))
    }
}


/// What the menu lists of a disk, given what `hdparm -I` told of it: the
/// model and kind found there; an NVMe disk, of which `hdparm` tells
/// nothing, is listed as an SSD of unknown model; any other disk without a
/// model is left out.
pub open spec fn listed_as(transport: Seq<char>, info: Option<(Seq<char>, DeviceType)>) -> Option<
    (Seq<char>, DeviceType),
> {
    match info {
        Some(found) => Some(found),
        None => if transport == "nvme"@ {
            Some(("Unknown Model"@, DeviceType::Ssd))
        } else {
            None
        },
    }
}

/// The model and kind under which the menu lists the disk of `row`, if at all.
pub fn listed_disk(row: &LsblkRow, info: Option<(String, DeviceType)>) -> (r: Option<(String, DeviceType)>)
    ensures
        match listed_as(row.transport@, match info {
            Some((m, k)) => Some((m@, k)),
            None => None,
        }) {
            Some((m, k)) => r matches Some((rm, rk)) && rm@ == m && rk == k,
            None => r is None,
        },
{
    match info {
        Some(found) => Some(found),
        None => if text_eq(row.transport.as_str(), "nvme") {
            Some((String::from_str("Unknown Model"), DeviceType::Ssd))
        } else {
            None
        },
    }
}

/// The kind shown for a disk: for a USB disk the one the user gave, when
/// asked; else the one found.
pub open spec fn shown_kind(transport: Seq<char>, found: DeviceType, answer: Option<DeviceType>) -> DeviceType {
    if transport == "usb"@ && answer is Some {
        answer->0
    } else {
        found
    }
}

/// The menu line of the disk of `row`, listed with `model` and kind `found`,
/// and `answer` the kind the user gave, if asked.
pub fn menu_label(row: &LsblkRow, model: &str, found: DeviceType, answer: Option<DeviceType>) -> (r: String)
    ensures
        r@ == disk_label_text(
            row.name@,
            model@,
            shown_kind(row.transport@, found, answer),
            row.transport@,
        ),
{
    let kind = if asks_device_type(row.transport.as_str()) {
        match answer {
            Some(k) => k,
            None => found,
        }
    } else {
        found
    };
    disk_label(row.name.as_str(), model, kind, row.transport.as_str())
}


proof fn lemma_rows_of_concat(a: Seq<Seq<char>>, b: Seq<Seq<char>>)
    ensures
        rows_of(a + b) == rows_of(a) + rows_of(b),
    decreases a.len(),
{
    if a.len() == 0 {
        assert(a + b =~= b);
        assert(rows_of(a) + rows_of(b) =~= rows_of(b));
    } else {
        lemma_rows_of_concat(a.drop_first(), b);
        assert((a + b).drop_first() =~= a.drop_first() + b);
        assert((a + b)[0] == a[0]);
        let w = text_words(a[0]);
        if w.len() >= 2 {
            assert(seq![(w[0], w[1])] + (rows_of(a.drop_first()) + rows_of(b)) =~= (seq![(w[0], w[1])]
                + rows_of(a.drop_first())) + rows_of(b));
        }
    }
}

/// Reading the lines of a listing part by part gives the rows of each part,
/// one after the other.
pub proof fn law_lsblk_rows_concat(a: Seq<Seq<char>>, b: Seq<Seq<char>>)
    ensures
        rows_of(a + b) == rows_of(a) + rows_of(b),
        rows_of(seq![]) == Seq::<(Seq<char>, Seq<char>)>::empty(),
{
    lemma_rows_of_concat(a, b);
}

/// Every line after the header that has at least two words lists a disk,
/// its first word the name and its second the transport, between the disks
/// of the lines before it and those of the lines after it; a line with fewer
/// words lists none and does not stop the reading.
pub proof fn law_lsblk_every_row(output: Seq<char>, j: int)
    requires
        1 <= j < text_lines(output).len(),
    ensures
        ({
            let ls = text_lines(output);
            let w = text_words(ls[j]);
            &&& w.len() >= 2 ==> lsblk_disks(output) == rows_of(ls.subrange(1, j)) + seq![(w[0], w[1])]
                + rows_of(ls.subrange(j + 1, ls.len() as int))
            &&& w.len() >= 2 ==> lsblk_disks(output).contains((w[0], w[1]))
            &&& w.len() < 2 ==> lsblk_disks(output) == rows_of(ls.subrange(1, j)) + rows_of(
                ls.subrange(j + 1, ls.len() as int),
            )
        }),
{
    let ls = text_lines(output);
    let n = ls.len() as int;
    let a = ls.subrange(1, j);
    let b = ls.subrange(j, n);
    assert(ls.drop_first() =~= a + b);
    lemma_rows_of_concat(a, b);
    assert(b[0] == ls[j]);
    assert(b.drop_first() =~= ls.subrange(j + 1, n));
    let w = text_words(ls[j]);
    if w.len() >= 2 {
        let r = rows_of(a) + seq![(w[0], w[1])] + rows_of(ls.subrange(j + 1, n));
        assert(rows_of(b) == seq![(w[0], w[1])] + rows_of(ls.subrange(j + 1, n)));
        assert(rows_of(a) + rows_of(b) =~= r);
        assert(r[rows_of(a).len() as int] == (w[0], w[1]));
    }
}

/// The text reads as a `u32` greater than 0.
pub open spec fn positive_rate(rate: Seq<char>) -> bool {
    parse_unsigned(rate, u32::MAX as nat) is Ok && parse_unsigned(rate, u32::MAX as nat)->Ok_0 > 0
}

/// A rotation rate that reads as a positive `u32` (and is not "Solid State
/// Device") makes the disk an HDD; "Solid State Device" makes it an SSD;
/// any other text leaves the kind read so far.
pub proof fn law_rotation_rate_kind(rate: Seq<char>, before: DeviceType)
    ensures
        rate == "Solid State Device"@ ==> rotation_type(rate, before) == DeviceType::Ssd,
        rate != "Solid State Device"@ && positive_rate(rate) ==> rotation_type(rate, before)
            == DeviceType::Hdd,
        rate != "Solid State Device"@ && !positive_rate(rate) ==> rotation_type(rate, before)
            == before,
{
}

proof fn lemma_hdparm_scan_push(lines: Seq<Seq<char>>, l: Seq<char>, model: Seq<char>, kind: DeviceType)
    ensures
        hdparm_scan(lines.push(l), model, kind) == hdparm_scan(
            seq![l],
            hdparm_scan(lines, model, kind).0,
            hdparm_scan(lines, model, kind).1,
        ),
    decreases lines.len(),
{
    if lines.len() > 0 {
        let l0 = lines[0];
        let model2 = if contains_seq(l0, "Model Number"@) && colon_value(l0) is Some {
            colon_value(l0)->0
        } else {
            model
        };
        let kind2 = if contains_seq(l0, "Rotation Rate"@) && colon_value(l0) is Some {
            rotation_type(colon_value(l0)->0, kind)
        } else {
            kind
        };
        assert(lines.push(l)[0] == l0);
        assert(lines.push(l).drop_first() =~= lines.drop_first().push(l));
        lemma_hdparm_scan_push(lines.drop_first(), l, model2, kind2);
    } else {
        assert(lines.push(l) =~= seq![l]);
    }
}

/// When the last line of `hdparm -I` output gives a rotation rate that reads
/// as a positive number, a disk read from it is an HDD, whatever came before.
pub proof fn law_hdparm_last_rate_positive_is_hdd(output: Seq<char>, rate: Seq<char>, k: nat)
    requires
        text_lines(output).len() > 0,
        contains_seq(text_lines(output).last(), "Rotation Rate"@),
        colon_value(text_lines(output).last()) == Some(rate),
        rate != "Solid State Device"@,
        parse_unsigned(rate, u32::MAX as nat) == Ok::<nat, crate::number::IntErrorKind>(k),
        k > 0,
        hdparm_disk(output) is Some,
    ensures
        (hdparm_disk(output)->0).1 == DeviceType::Hdd,
{
    let ls = text_lines(output);
    let l = ls.last();
    assert(ls =~= ls.drop_last().push(l));
    lemma_hdparm_scan_push(ls.drop_last(), l, "Unknown Model"@, DeviceType::Unknown);
    let (m1, k1) = hdparm_scan(ls.drop_last(), "Unknown Model"@, DeviceType::Unknown);
    let model2 = if contains_seq(l, "Model Number"@) && colon_value(l) is Some {
        colon_value(l)->0
    } else {
        m1
    };
    assert(seq![l].drop_first() =~= Seq::<Seq<char>>::empty());
    assert(seq![l][0] == l);
    reveal_with_fuel(hdparm_scan, 2);
    assert(hdparm_scan(seq![l], m1, k1) == (model2, rotation_type(rate, k1)));
}

/// Output with a model line and then a rotation-rate line that reads as a
/// positive number gives that model and the kind HDD.
pub proof fn law_hdparm_model_and_rate(
    output: Seq<char>,
    model_line: Seq<char>,
    rate_line: Seq<char>,
    model: Seq<char>,
    rate: Seq<char>,
    k: nat,
)
    requires
        text_lines(output) == seq![model_line, rate_line],
        contains_seq(model_line, "Model Number"@),
        !contains_seq(model_line, "Rotation Rate"@),
        colon_value(model_line) == Some(model),
        model != "Unknown Model"@,
        contains_seq(rate_line, "Rotation Rate"@),
        !contains_seq(rate_line, "Model Number"@),
        colon_value(rate_line) == Some(rate),
        rate != "Solid State Device"@,
        parse_unsigned(rate, u32::MAX as nat) == Ok::<nat, crate::number::IntErrorKind>(k),
        k > 0,
    ensures
        hdparm_disk(output) == Some((model, DeviceType::Hdd)),
{
    let ls = text_lines(output);
    assert(ls.drop_first() =~= seq![rate_line]);
    assert(seq![rate_line].drop_first() =~= Seq::<Seq<char>>::empty());
    assert(seq![rate_line][0] == rate_line);
    assert(ls[0] == model_line);
    reveal_with_fuel(hdparm_scan, 2);
    assert(hdparm_scan(seq![rate_line], model, DeviceType::Unknown) == (model, DeviceType::Hdd));
    assert(hdparm_scan(ls, "Unknown Model"@, DeviceType::Unknown) == (model, DeviceType::Hdd));
}

/// For a USB disk the kind the user gave is the kind shown, whatever
/// `hdparm` found; for any other disk, or when the user was not asked, the
/// kind found is shown.
pub proof fn law_usb_answer_decides_kind(
    name: Seq<char>,
    model: Seq<char>,
    transport: Seq<char>,
    found: DeviceType,
    answer: Option<DeviceType>,
)
    ensures
        transport == "usb"@ && answer is Some ==> shown_kind(transport, found, answer) == answer->0,
        transport == "usb"@ && answer is Some ==> disk_label_text(
            name,
            model,
            shown_kind(transport, found, answer),
            transport,
        ) == disk_label_text(name, model, answer->0, transport),
        transport != "usb"@ ==> shown_kind(transport, found, answer) == found,
        answer is None ==> shown_kind(transport, found, answer) == found,
{
}

} // verus!
