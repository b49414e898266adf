//! The resource-usage widget editor: the list of metrics, their colours,
//! styles and order, and the widget's size choices.
use crate::text::{decimal_spec, digit_char, push_decimal};
use vstd::prelude::*;
use vstd::string::StrSliceExecFns;

verus! {

/// A measured resource.
#[derive(Clone, Copy, PartialEq, Eq, Structural, Debug)]
pub enum ResourceMetricKind {
    Cpu,
    Ram,
    Gpu,
    Network,
    Disk,
}

/// How a metric is drawn.
#[derive(Clone, Copy, PartialEq, Eq, Structural, Debug)]
pub enum ResourceMetricStyle {
    Bar,
    Ring,
}

/// One metric row of the widget.
#[derive(Clone, Copy, PartialEq, Eq, Structural, Debug)]
pub struct ResourceMetricConfig {
    pub kind: ResourceMetricKind,
    pub enabled: bool,
    pub style: ResourceMetricStyle,
    pub color: u32,
}

/// The colours a metric cycles through, as `0xRRGGBB`.
pub open spec fn palette() -> Seq<u32> {
    seq![0x0a84ff, 0x32bef6, 0x30d158, 0xff9f0a, 0xff453a, 0xff375f, 0xaf52de, 0x64d2ff, 0xffffff, 0x8e8e93]
}

/// The short name shown for a metric.
pub fn metric_name(kind: ResourceMetricKind) -> (name: &'static str)
    ensures
        name@ == match kind {
            ResourceMetricKind::Cpu => "CPU"@,
            ResourceMetricKind::Ram => "RAM"@,
            ResourceMetricKind::Gpu => "GPU"@,
            ResourceMetricKind::Network => "NET"@,
            ResourceMetricKind::Disk => "DISK"@,
        },
{
    match kind {
        ResourceMetricKind::Cpu => "CPU",
        ResourceMetricKind::Ram => "RAM",
        ResourceMetricKind::Gpu => "GPU",
        ResourceMetricKind::Network => "NET",
        ResourceMetricKind::Disk => "DISK",
    }
}

fn palette_colors() -> (colors: Vec<u32>)
    ensures
        colors@ == palette(),
{
    let colors = vec![0x0a84ff, 0x32bef6, 0x30d158, 0xff9f0a, 0xff453a, 0xff375f, 0xaf52de, 0x64d2ff, 0xffffff, 0x8e8e93];
    assert(colors@ =~= palette());
    colors
}

/// The colour after `color`: the next palette entry, wrapping around; a colour
/// outside the palette moves to the first entry.
pub open spec fn next_color_spec(color: u32) -> u32 {
    let i = palette().index_of_first(color);
    match i {
        Some(i) => palette()[(i + 1) % 10],
        None => palette()[0],
    }
}

/// The colour a click on a metric's colour swatch moves to.
pub fn next_color(color: u32) -> (next: u32)
    ensures
        next == next_color_spec(color),
{
    let colors = palette_colors();
    let mut i: usize = 0;
    while i < colors.len()
        invariant
            colors@ == palette(),
            i <= 10,
            forall|j: int| 0 <= j < i ==> colors@[j] != color,
        decreases 10 - i,
    {
        if colors[i] == color {
            proof {
                let r = palette().index_of_first(color);
                palette().index_of_first_ensures(color);
                assert(r == Some(i as int));
            }
            return colors[(i + 1) % 10];
        }
        i += 1;
    }
    proof {
        palette().index_of_first_ensures(color);
        assert(!palette().contains(color));
    }
    colors[0]
}

/// A control of the editor dialog.
#[derive(Clone, Copy, PartialEq, Eq, Structural, Debug)]
pub enum EditorControl {
    Close,
    Toggle(usize),
    Bar(usize),
    Ring(usize),
    Color(usize),
    MoveUp(usize),
    MoveDown(usize),
    SizeDropdown,
}

/// What the window does after a control was used.
#[derive(Clone, Copy, PartialEq, Eq, Structural, Debug)]
pub enum EditorOutcome {
    /// The dialog closes.
    Close,
    /// The size choices pop up.
    OpenSizePopup,
    /// The metric list may have changed; it is saved.
    Updated,
}

/// The metric list after a control acts on it: toggling, restyling or
/// recolouring a row; moving a row up or down one place, when there is a
/// place to move to.  Other controls, and rows past the end, leave it alone.
pub open spec fn apply_control_spec(
    metrics: Seq<ResourceMetricConfig>,
    control: EditorControl,
) -> Seq<ResourceMetricConfig> {
    match control {
        EditorControl::Toggle(i) => if i < metrics.len() {
            metrics.update(i as int, ResourceMetricConfig { enabled: !metrics[i as int].enabled, ..metrics[i as int] })
        } else {
            metrics
        },
        EditorControl::Bar(i) => if i < metrics.len() {
            metrics.update(i as int, ResourceMetricConfig { style: ResourceMetricStyle::Bar, ..metrics[i as int] })
        } else {
            metrics
        },
        EditorControl::Ring(i) => if i < metrics.len() {
            metrics.update(i as int, ResourceMetricConfig { style: ResourceMetricStyle::Ring, ..metrics[i as int] })
        } else {
            metrics
        },
        EditorControl::Color(i) => if i < metrics.len() {
            metrics.update(
                i as int,
                ResourceMetricConfig { color: next_color_spec(metrics[i as int].color), ..metrics[i as int] },
            )
        } else {
            metrics
        },
        EditorControl::MoveUp(i) => if 0 < i < metrics.len() {
            metrics.update(i as int, metrics[i - 1]).update(i - 1, metrics[i as int])
        } else {
            metrics
        },
        EditorControl::MoveDown(i) => if i + 1 < metrics.len() {
            metrics.update(i as int, metrics[i + 1]).update(i + 1, metrics[i as int])
        } else {
            metrics
        },
        _ => metrics,
    }
}

fn swap_rows(metrics: &mut Vec<ResourceMetricConfig>, i: usize, j: usize)
    requires
        i < old(metrics)@.len(),
        j < old(metrics)@.len(),
    ensures
        final(metrics)@ == old(metrics)@.update(i as int, old(metrics)@[j as int]).update(
            j as int,
            old(metrics)@[i as int],
        ),
{
    let a = metrics[i];
    let b = metrics[j];
    metrics.set(i, b);
    metrics.set(j, a);
}

/// Applies a click on an editor control to the metric list.
pub fn apply_editor_control(metrics: &mut Vec<ResourceMetricConfig>, control: EditorControl) -> (outcome: EditorOutcome)
    ensures
        final(metrics)@ == apply_control_spec(old(metrics)@, control),
        outcome == match control {
            EditorControl::Close => EditorOutcome::Close,
            EditorControl::SizeDropdown => EditorOutcome::OpenSizePopup,
            _ => EditorOutcome::Updated,
        },
{
    let n = metrics.len();
    match control {
        EditorControl::Close => EditorOutcome::Close,
        EditorControl::SizeDropdown => EditorOutcome::OpenSizePopup,
        EditorControl::Toggle(i) => {
            if i < n {
                let mut metric = metrics[i];
                metric.enabled = !metric.enabled;
                metrics.set(i, metric);
            }
            EditorOutcome::Updated
        },
        EditorControl::Bar(i) => {
            if i < n {
                let mut metric = metrics[i];
                metric.style = ResourceMetricStyle::Bar;
                metrics.set(i, metric);
            }
            EditorOutcome::Updated
        },
        EditorControl::Ring(i) => {
            if i < n {
                let mut metric = metrics[i];
                metric.style = ResourceMetricStyle::Ring;
                metrics.set(i, metric);
            }
            EditorOutcome::Updated
        },
        EditorControl::Color(i) => {
            if i < n {
                let mut metric = metrics[i];
                metric.color = next_color(metric.color);
                metrics.set(i, metric);
            }
            EditorOutcome::Updated
        },
        EditorControl::MoveUp(i) => {
            if i > 0 && i < n {
                swap_rows(metrics, i, i - 1);
            }
            EditorOutcome::Updated
        },
        EditorControl::MoveDown(i) => {
            if i < n && i + 1 < n {
                swap_rows(metrics, i, i + 1);
            }
            EditorOutcome::Updated
        },
    }
}

/// Moving a row down and then moving it back up restores the list.
pub proof fn lemma_move_down_then_up(metrics: Seq<ResourceMetricConfig>, i: usize)
    requires
        i + 1 < metrics.len(),
        i + 1 <= usize::MAX,
    ensures
        apply_control_spec(
            apply_control_spec(metrics, EditorControl::MoveDown(i)),
            EditorControl::MoveUp((i + 1) as usize),
        ) == metrics,
{
    let once = apply_control_spec(metrics, EditorControl::MoveDown(i));
    assert(apply_control_spec(once, EditorControl::MoveUp((i + 1) as usize)) =~= metrics);
}

/// Every control keeps the same metrics, only reordered or restyled: the
/// length never changes and each row keeps its kind or trades places with a
/// neighbour.
pub proof fn lemma_control_keeps_length(metrics: Seq<ResourceMetricConfig>, control: EditorControl)
    ensures
        apply_control_spec(metrics, control).len() == metrics.len(),
{
}

/// The switch and the bar and ring buttons of a row act on that row alone:
/// the switch flips whether it is shown, the buttons set its style, and its
/// kind and colour, and every other row, stay as they were.
pub proof fn lemma_row_controls_change_their_row(metrics: Seq<ResourceMetricConfig>, i: usize)
    requires
        i < metrics.len(),
    ensures
        ({
            let toggled = apply_control_spec(metrics, EditorControl::Toggle(i));
            let bar = apply_control_spec(metrics, EditorControl::Bar(i));
            let ring = apply_control_spec(metrics, EditorControl::Ring(i));
            &&& toggled.len() == metrics.len() && bar.len() == metrics.len() && ring.len()
                == metrics.len()
            &&& toggled[i as int].enabled == !metrics[i as int].enabled
            &&& toggled[i as int].style == metrics[i as int].style
            &&& bar[i as int].style == ResourceMetricStyle::Bar
            &&& bar[i as int].enabled == metrics[i as int].enabled
            &&& ring[i as int].style == ResourceMetricStyle::Ring
            &&& ring[i as int].enabled == metrics[i as int].enabled
            &&& toggled[i as int].kind == metrics[i as int].kind && bar[i as int].kind
                == metrics[i as int].kind && ring[i as int].kind == metrics[i as int].kind
            &&& toggled[i as int].color == metrics[i as int].color && bar[i as int].color
                == metrics[i as int].color && ring[i as int].color == metrics[i as int].color
            &&& forall|j: int|
                0 <= j < metrics.len() && j != i ==> toggled[j] == metrics[j] && bar[j] == metrics[j]
                    && ring[j] == metrics[j]
        }),
{
}

/// Recolouring a metric always lands on a palette colour.
pub proof fn lemma_next_color_in_palette(color: u32)
    ensures
        palette().contains(next_color_spec(color)),
{
    palette().index_of_first_ensures(color);
    match palette().index_of_first(color) {
        Some(i) => {
            assert(0 <= (i + 1) % 10 < 10);
            assert(palette()[(i + 1) % 10] == palette()[(i + 1) % 10]);
        },
        None => {
            assert(palette()[0] == 0x0a84ff);
        },
    }
}


/// The widget sizes offered, as (columns, rows).
pub open spec fn size_options() -> Seq<(usize, usize)> {
    seq![(1, 1), (2, 1), (3, 1), (1, 2), (2, 2), (3, 2), (1, 3), (2, 3)]
}

fn size_option_list() -> (options: Vec<(usize, usize)>)
    ensures
        options@ == size_options(),
{
    let options = vec![(1, 1), (2, 1), (3, 1), (1, 2), (2, 2), (3, 2), (1, 3), (2, 3)];
    assert(options@ =~= size_options());
    options
}

/// The size offered first in the popup: the widget's current size when it is
/// one of the choices, the first choice otherwise.
pub fn selected_size_option(columns: usize, rows: usize) -> (index: usize)
    ensures
        index == match size_options().index_of_first((columns, rows)) {
            Some(i) => i as usize,
            None => 0,
        },
{
    let options = size_option_list();
    let mut i: usize = 0;
    while i < options.len()
        invariant
            options@ == size_options(),
            i <= 8,
            forall|j: int| 0 <= j < i ==> options@[j] != (columns, rows),
        decreases 8 - i,
    {
        if options[i].0 == columns && options[i].1 == rows {
            proof {
                size_options().index_of_first_ensures((columns, rows));
            }
            return i;
        }
        i += 1;
    }
    proof {
        size_options().index_of_first_ensures((columns, rows));
        assert(!size_options().contains((columns, rows)));
    }
    0
}

/// The label of a size choice: columns, a multiplication sign, rows.
pub open spec fn size_label_spec(columns: usize, rows: usize) -> Seq<char> {
    decimal_spec(columns as nat) + " × "@ + decimal_spec(rows as nat)
}

/// The value of a size choice: columns, `x`, rows.
pub open spec fn size_value_spec(columns: usize, rows: usize) -> Seq<char> {
    decimal_spec(columns as nat) + "x"@ + decimal_spec(rows as nat)
}

/// The label shown for a size choice.
pub fn size_option_label(columns: usize, rows: usize) -> (label: String)
    ensures
        label@ == size_label_spec(columns, rows),
{
    let mut label = String::new();
    push_decimal(&mut label, columns as u64);
    label.append(" × ");
    push_decimal(&mut label, rows as u64);
    proof {
        reveal_strlit(" × ");
    }
    label
}

/// The value a size choice hands back when picked.
pub fn size_option_value(columns: usize, rows: usize) -> (value: String)
    ensures
        value@ == size_value_spec(columns, rows),
{
    let mut value = String::new();
    push_decimal(&mut value, columns as u64);
    value.append("x");
    push_decimal(&mut value, rows as u64);
    proof {
        reveal_strlit("x");
    }
    value
}

/// The numeric value of a character known to be a decimal digit.
pub open spec fn digit_value(c: char) -> int {
    (c as int) - ('0' as int)
}

pub open spec fn is_digit(c: char) -> bool {
    '0' <= c && c <= '9'
}

/// The number a string of decimal digits spells.
pub open spec fn digits_value(s: Seq<char>) -> int
    decreases s.len(),
{
    if s.len() == 0 {
        0
    } else {
        digits_value(s.drop_last()) * 10 + digit_value(s.last())
    }
}

/// The digits of a number text: without its leading `+`, if it has one.
pub open spec fn unsigned_part(s: Seq<char>) -> Seq<char> {
    if s.len() > 0 && s[0] == '+' {
        s.drop_first()
    } else {
        s
    }
}

pub open spec fn all_digits(s: Seq<char>) -> bool {
    forall|i: int| 0 <= i < s.len() ==> is_digit(#[trigger] s[i])
}

/// `usize::from_str`: an optional `+`, then one or more decimal digits whose
/// value fits a `usize`.
pub open spec fn parse_usize_spec(s: Seq<char>) -> Option<usize> {
    let digits = unsigned_part(s);
    if digits.len() > 0 && all_digits(digits) && digits_value(digits) <= usize::MAX {
        Some(digits_value(digits) as usize)
    } else {
        None
    }
}

proof fn lemma_digits_value_nonneg(s: Seq<char>)
    requires
        forall|i: int| 0 <= i < s.len() ==> is_digit(#[trigger] s[i]),
    ensures
        digits_value(s) >= 0,
    decreases s.len(),
{
    if s.len() > 0 {
        lemma_digits_value_nonneg(s.drop_last());
    }
}

proof fn lemma_digits_value_grows(s: Seq<char>, c: char)
    requires
        forall|i: int| 0 <= i < s.len() ==> is_digit(#[trigger] s[i]),
        is_digit(c),
    ensures
        digits_value(s.push(c)) == digits_value(s) * 10 + digit_value(c),
        digits_value(s.push(c)) >= digits_value(s),
{
    assert(s.push(c).drop_last() =~= s);
    lemma_digits_value_nonneg(s);
}

/// Parses a `usize` the way `str::parse::<usize>` does.
pub fn parse_usize(s: &str) -> (value: Option<usize>)
    ensures
        value == parse_usize_spec(s@),
{
    let n = s.unicode_len();
    let ghost digits = unsigned_part(s@);
    let mut i: usize = 0;
    if n > 0 && s.get_char(0) == '+' {
        i = 1;
    }
    if i == n {
        return None;
    }
    let start = i;
    assert(digits =~= s@.subrange(start as int, n as int));
    let mut value: usize = 0;
    let mut overflow = false;
    while i < n
        invariant
            n == s@.len(),
            start <= i <= n,
            start < n,
            digits == unsigned_part(s@),
            digits =~= s@.subrange(start as int, n as int),
            forall|j: int| start <= j < i ==> is_digit(#[trigger] s@[j]),
            !overflow ==> value == digits_value(s@.subrange(start as int, i as int)),
            overflow ==> digits_value(s@.subrange(start as int, i as int)) > usize::MAX,
        decreases n - i,
    {
        let c = s.get_char(i);
        if !('0' <= c && c <= '9') {
            proof {
                let k = (i - start) as int;
                assert(digits[k] == c);
                assert(!is_digit(digits[k]));
                assert(!all_digits(digits));
            }
            return None;
        }
        let d = (c as u32 - '0' as u32) as usize;
        proof {
            let prefix = s@.subrange(start as int, i as int);
            assert(s@.subrange(start as int, i + 1) =~= prefix.push(c));
            lemma_digits_value_grows(prefix, c);
        }
        if !overflow {
            if value > (usize::MAX - d) / 10 {
                overflow = true;
            } else {
                value = value * 10 + d;
            }
        }
        i += 1;
    }
    assert(s@.subrange(start as int, n as int) =~= digits);
    if overflow {
        None
    } else {
        Some(value)
    }
}

/// `str::split_once` on a character: the text before and after its first
/// occurrence.
pub open spec fn split_once_spec(s: Seq<char>, c: char) -> Option<(Seq<char>, Seq<char>)> {
    match s.index_of_first(c) {
        Some(i) => Some((s.subrange(0, i), s.subrange(i + 1, s.len() as int))),
        None => None,
    }
}

/// The size a picked value names: the numbers before and after the first `x`.
pub open spec fn select_size_spec(value: Seq<char>) -> Option<(usize, usize)> {
    match split_once_spec(value, 'x') {
        Some((c, r)) => match (parse_usize_spec(c), parse_usize_spec(r)) {
            (Some(columns), Some(rows)) => Some((columns, rows)),
            _ => None,
        },
        None => None,
    }
}

/// Reads the size a picked popup value names; `None` when it names none.
pub fn select_resource_size(value: &str) -> (size: Option<(usize, usize)>)
    ensures
        size == select_size_spec(value@),
{
    let n = value.unicode_len();
    let mut i: usize = 0;
    while i < n
        invariant
            n == value@.len(),
            i <= n,
            forall|j: int| 0 <= j < i ==> value@[j] != 'x',
        decreases n - i,
    {
        if value.get_char(i) == 'x' {
            proof {
                value@.index_of_first_ensures('x');
            }
            let columns = parse_usize(value.substring_char(0, i));
            let rows = parse_usize(value.substring_char(i + 1, n));
            return match (columns, rows) {
                (Some(c), Some(r)) => Some((c, r)),
                _ => None,
            };
        }
        i += 1;
    }
    proof {
        value@.index_of_first_ensures('x');
        assert(!value@.contains('x'));
    }
    None
}

proof fn lemma_decimal_digits(n: nat)
    ensures
        decimal_spec(n).len() > 0,
        forall|i: int| 0 <= i < decimal_spec(n).len() ==> is_digit(#[trigger] decimal_spec(n)[i]),
        digits_value(decimal_spec(n)) == n,
    decreases n,
{
    let d = n % 10;
    assert(is_digit(digit_char(d)) && digit_value(digit_char(d)) == d);
    if n >= 10 {
        lemma_decimal_digits(n / 10);
        let s = decimal_spec(n / 10);
        assert(decimal_spec(n) == s.push(digit_char(d)));
        lemma_digits_value_grows(s, digit_char(d));
        assert((n / 10) * 10 + n % 10 == n) by (nonlinear_arith);
    } else {
        let e = Seq::<char>::empty();
        assert(decimal_spec(n) =~= e.push(digit_char(d)));
        assert(e.push(digit_char(d)).drop_last() =~= e);
        assert(digits_value(e) == 0);
        assert(digits_value(e.push(digit_char(d))) == digits_value(e) * 10 + digit_value(digit_char(d)));
    }
}

/// Picking a size choice names exactly that size: the value written for
/// any columns and rows reads back as the same columns and rows.
pub proof fn lemma_size_value_round_trip(columns: usize, rows: usize)
    ensures
        select_size_spec(size_value_spec(columns, rows)) == Some((columns, rows)),
{
    let c = decimal_spec(columns as nat);
    let r = decimal_spec(rows as nat);
    lemma_decimal_digits(columns as nat);
    lemma_decimal_digits(rows as nat);
    let v = size_value_spec(columns, rows);
    reveal_strlit("x");
    assert(v =~= c + seq!['x'] + r);
    assert(v[c.len() as int] == 'x');
    assert(forall|i: int| 0 <= i < c.len() ==> v[i] == c[i]);
    v.index_of_first_ensures('x');
    assert(v.index_of_first('x') == Some(c.len() as int)) by {
        assert(forall|i: int| 0 <= i < c.len() ==> v[i] != 'x') by {
            assert forall|i: int| 0 <= i < c.len() implies v[i] != 'x' by {
                assert(is_digit(c[i]));
            }
        }
        match v.index_of_first('x') {
            Some(k) => {
                assert(v[k] == 'x');
                if k < c.len() {
                    assert(is_digit(c[k]));
                }
            },
            None => {
                assert(v.contains('x'));
            },
        }
    }
    assert(v.subrange(0, c.len() as int) =~= c);
    assert(v.subrange((c.len() + 1) as int, v.len() as int) =~= r);
    assert(c[0] != '+');
    assert(r[0] != '+');
}

} // verus!
