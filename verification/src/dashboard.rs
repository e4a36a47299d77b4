//! The terminal status dashboard: progress bars and the lines that show the
//! pet's state and vitals.
use vstd::prelude::*;
use crate::text::string_from_chars;
use crate::types::{PetState, RenderFrameState};
use crate::vitals::clamp_vital;

verus! {

/// The name of a state, as `{:?}` prints it.
pub open spec fn state_name(state: PetState) -> Seq<char> {
    match state {
        PetState::Idle => "Idle"@,
        PetState::Walking => "Walking"@,
        PetState::Working => "Working"@,
        PetState::Sleeping => "Sleeping"@,
        PetState::Distressed => "Distressed"@,
        PetState::Celebrating => "Celebrating"@,
    }
}

/// The name of a state, as `{:?}` prints it.
pub fn pet_state_name(state: PetState) -> (r: &'static str)
    ensures
        r@ == state_name(state),
{
    match state {
        PetState::Idle => "Idle",
        PetState::Walking => "Walking",
        PetState::Working => "Working",
        PetState::Sleeping => "Sleeping",
        PetState::Distressed => "Distressed",
        PetState::Celebrating => "Celebrating",
    }
}

/// The decimal digit `d`.
pub open spec fn digit_char(d: int) -> char {
    ('0' as int + d) as char
}

/// The decimal numeral of `n`, without leading zeros.
pub open spec fn decimal(n: nat) -> Seq<char>
    decreases n,
{
    if n < 10 {
        seq![digit_char(n as int)]
    } else {
        decimal(n / 10) + seq![digit_char((n % 10) as int)]
    }
}

/// `n` copies of `c`.
pub open spec fn repeated(c: char, n: nat) -> Seq<char> {
    Seq::new(n, |i: int| c)
}

/// `s` right-aligned in a field of `width` characters.
pub open spec fn pad_left(s: Seq<char>, width: nat) -> Seq<char> {
    if s.len() >= width {
        s
    } else {
        repeated(' ', (width - s.len()) as nat) + s
    }
}

/// A number of points (in millionths) in tenths of a point, rounded to the
/// nearest tenth with ties to even, as `{:.1}` rounds.
pub open spec fn tenths(c: nat) -> nat {
    let q = c / 100_000;
    let r = c % 100_000;
    if r > 50_000 || (r == 50_000 && q % 2 == 1) {
        q + 1
    } else {
        q
    }
}

/// The number of the twenty cells that a value of `c` millionths of a point
/// (out of 100 points) fills, rounded to the nearest cell, halves up.
pub open spec fn filled_cells(c: nat) -> nat {
    (c + 2_500_000) / 5_000_000
}

/// The progress bar of a vital of `val` millionths of a point: the value is
/// limited to 0 ..= 100 points, twenty cells are filled in proportion, and
/// the value follows with one decimal in a field of five.
pub open spec fn progress_bar_text(val: int) -> Seq<char> {
    let c = clamp_vital(val) as nat;
    let filled = filled_cells(c);
    let t = tenths(c);
    "["@ + repeated('=', filled) + repeated(' ', (20 - filled) as nat) + "] "@ + pad_left(
        decimal(t / 10) + "."@ + decimal(t % 10),
        5,
    ) + "%"@
}

/// Appends `n` copies of `c` to `v`.
fn push_repeated(v: &mut Vec<char>, c: char, n: usize)
    ensures
        final(v)@ == old(v)@ + repeated(c, n as nat),
{
    let mut i: usize = 0;
    while i < n
        invariant
            i <= n,
            v@ == old(v)@ + repeated(c, i as nat),
        decreases n - i,
    {
        v.push(c);
        i = i + 1;
        assert(v@ =~= old(v)@ + repeated(c, i as nat));
    }
}

/// Appends the characters of `s` to `v`.
fn push_str(v: &mut Vec<char>, s: &str)
    ensures
        final(v)@ == old(v)@ + s@,
{
    let cs = crate::text::chars_of(s);
    let mut i: usize = 0;
    while i < cs.len()
        invariant
            i <= cs.len(),
            cs@ == s@,
            v@ == old(v)@ + cs@.take(i as int),
        decreases cs.len() - i,
    {
        v.push(cs[i]);
        i = i + 1;
        assert(v@ =~= old(v)@ + cs@.take(i as int));
    }
    assert(cs@.take(cs.len() as int) =~= cs@);
}

/// The decimal digits of `n`.
pub fn decimal_chars(n: u64) -> (r: Vec<char>)
    ensures
        r@ == decimal(n as nat),
{
    let mut digits: Vec<char> = Vec::new();
    let mut m: u64 = n;
    // `digits` holds the numeral's last digits, most significant first.
    while m >= 10
        invariant
            decimal(n as nat) == decimal(m as nat) + digits@,
        decreases m,
    {
        let d = m % 10;
        let c = ((d as u32) + ('0' as u32)) as u8 as char;
        assert(c == digit_char(d as int)) by {
            assert(d < 10);
        }
        let ghost old_digits = digits@;
        digits.insert(0, c);
        assert(digits@ =~= seq![c] + old_digits);
        assert(decimal(m as nat) == decimal((m / 10) as nat) + seq![digit_char((m % 10) as int)]);
        m = m / 10;
        assert(decimal(n as nat) =~= decimal(m as nat) + digits@);
    }
    let c = ((m as u32) + ('0' as u32)) as u8 as char;
    let ghost old_digits = digits@;
    digits.insert(0, c);
    assert(digits@ =~= seq![c] + old_digits);
    assert(decimal(m as nat) == seq![digit_char(m as int)]);
    assert(digits@ =~= decimal(n as nat));
    digits
}

/// The progress bar of a vital of `val` millionths of a point, such as
/// `[==========          ]  50.0%`.
pub fn make_progress_bar(val: i64) -> (r: String)
    ensures
        r@ == progress_bar_text(val as int),
{
    let c: u64 = if val < 0 {
        0
    } else if val > 100_000_000 {
        100_000_000
    } else {
        val as u64
    };
    let filled: u64 = (c + 2_500_000) / 5_000_000;
    assert(filled <= 20);
    let q = c / 100_000;
    let rem = c % 100_000;
    let t: u64 = if rem > 50_000 || (rem == 50_000 && q % 2 == 1) {
        q + 1
    } else {
        q
    };
    let mut number = decimal_chars(t / 10);
    number.push('.');
    let frac = decimal_chars(t % 10);
    let mut k: usize = 0;
    let ghost before = number@;
    while k < frac.len()
        invariant
            k <= frac.len(),
            number@ == before + frac@.take(k as int),
        decreases frac.len() - k,
    {
        number.push(frac[k]);
        k = k + 1;
        assert(number@ =~= before + frac@.take(k as int));
    }
    assert(frac@.take(frac.len() as int) =~= frac@);
    let mut out: Vec<char> = Vec::new();
    push_str(&mut out, "[");
    push_repeated(&mut out, '=', filled as usize);
    push_repeated(&mut out, ' ', (20 - filled) as usize);
    push_str(&mut out, "] ");
    if number.len() < 5 {
        push_repeated(&mut out, ' ', 5 - number.len());
    }
    let ghost padded_start = out@;
    let mut j: usize = 0;
    while j < number.len()
        invariant
            j <= number.len(),
            out@ == padded_start + number@.take(j as int),
        decreases number.len() - j,
    {
        out.push(number[j]);
        j = j + 1;
        assert(out@ =~= padded_start + number@.take(j as int));
    }
    assert(number@.take(number.len() as int) =~= number@);
    push_str(&mut out, "%");
    proof {
        assert(number@ =~= decimal((t / 10) as nat) + "."@ + decimal((t % 10) as nat)) by {
            reveal_strlit(".");
        }
        let expected = progress_bar_text(val as int);
        assert(out@ =~= expected);
    }
    string_from_chars(&out)
}

/// The lines of the status dashboard for `frame`.
pub open spec fn dashboard_text(frame: RenderFrameState) -> Seq<Seq<char>> {
    seq![
        "=== DESKTOP PET STATUS DASHBOARD ==="@,
        "State    : "@ + state_name(frame.state),
        "Dialogue : "@ + match frame.dialogue {
            Some(d) => d@,
            None => "None"@,
        },
        "Timestamp: "@ + decimal(frame.timestamp_ms as nat) + " ms"@,
        "------------------------------------"@,
        "Vitals:"@,
        "  Energy   : "@ + progress_bar_text(frame.vitals.energy as int),
        "  Hunger   : "@ + progress_bar_text(frame.vitals.hunger as int),
        "  Focus    : "@ + progress_bar_text(frame.vitals.focus as int),
        "  Affection: "@ + progress_bar_text(frame.vitals.affection as int),
        "  Stress   : "@ + progress_bar_text(frame.vitals.stress as int),
        "===================================="@,
    ]
}

/// The strings of a list.
pub open spec fn string_views(v: Seq<String>) -> Seq<Seq<char>> {
    v.map_values(|s: String| s@)
}

/// `prefix` followed by `rest`.
fn joined(prefix: &str, rest: &str) -> (r: String)
    ensures
        r@ == prefix@ + rest@,
{
    let mut s = String::from_str(prefix);
    s.append(rest);
    s
}

/// The lines of the status dashboard for `frame`, from the banner to the
/// closing rule: the state, the dialogue (`None` when there is none), the
/// timestamp and a progress bar for each vital.
pub fn dashboard_lines(frame: &RenderFrameState) -> (r: Vec<String>)
    ensures
        string_views(r@) == dashboard_text(*frame),
{
    let mut lines: Vec<String> = Vec::new();
    lines.push(String::from_str("=== DESKTOP PET STATUS DASHBOARD ==="));
    lines.push(joined("State    : ", pet_state_name(frame.state)));
    let dialogue = match &frame.dialogue {
        Some(d) => d.as_str(),
        None => "None",
    };
    lines.push(joined("Dialogue : ", dialogue));
    let stamp = string_from_chars(&decimal_chars(frame.timestamp_ms));
    let mut stamp_line = joined("Timestamp: ", stamp.as_str());
    stamp_line.append(" ms");
    lines.push(stamp_line);
    lines.push(String::from_str("------------------------------------"));
    lines.push(String::from_str("Vitals:"));
    lines.push(joined("  Energy   : ", make_progress_bar(frame.vitals.energy).as_str()));
    lines.push(joined("  Hunger   : ", make_progress_bar(frame.vitals.hunger).as_str()));
    lines.push(joined("  Focus    : ", make_progress_bar(frame.vitals.focus).as_str()));
    lines.push(joined("  Affection: ", make_progress_bar(frame.vitals.affection).as_str()));
    lines.push(joined("  Stress   : ", make_progress_bar(frame.vitals.stress).as_str()));
    lines.push(String::from_str("===================================="));
    assert(string_views(lines@) =~= dashboard_text(*frame));
    lines
}

/// Each vital's line of the dashboard shows that vital: the energy, hunger,
/// focus, affection and stress bars stand on lines 6 to 10, after the
/// banner, the state, the dialogue, the timestamp, the rule and the
/// `Vitals:` heading, and a closing rule ends the twelve lines.
pub proof fn law_dashboard_shows_each_vital(frame: RenderFrameState)
    ensures
        dashboard_text(frame).len() == 12,
        dashboard_text(frame)[1] == "State    : "@ + state_name(frame.state),
        dashboard_text(frame)[6] == "  Energy   : "@ + progress_bar_text(frame.vitals.energy as int),
        dashboard_text(frame)[7] == "  Hunger   : "@ + progress_bar_text(frame.vitals.hunger as int),
        dashboard_text(frame)[8] == "  Focus    : "@ + progress_bar_text(frame.vitals.focus as int),
        dashboard_text(frame)[9] == "  Affection: "@ + progress_bar_text(
            frame.vitals.affection as int,
        ),
        dashboard_text(frame)[10] == "  Stress   : "@ + progress_bar_text(frame.vitals.stress as int),
{
}

/// A progress bar opens with `[` and fills its twenty cells with `=` in
/// proportion to the value (limited to 0 ..= 100 points), to the nearest
/// cell with halves up, leaving the rest blank, and closes with `]`.
pub proof fn law_progress_bar_cells(val: int)
    ensures
        ({
            let c = clamp_vital(val);
            let filled = (20 * c + 50_000_000) / 100_000_000;
            &&& progress_bar_text(val)[0] == '['
            &&& forall|i: int| 1 <= i <= 20 ==> #[trigger] progress_bar_text(val)[i] == (if i
                <= filled {
                '='
            } else {
                ' '
            })
            &&& progress_bar_text(val)[21] == ']'
        }),
{
    reveal_strlit("[");
    reveal_strlit("] ");
    let c = clamp_vital(val) as nat;
    let filled = filled_cells(c);
    assert(filled == (20 * c + 50_000_000) / 100_000_000) by {
        assert(c + 2_500_000 == (20 * c + 50_000_000) / 20) by (nonlinear_arith);
        vstd::arithmetic::div_mod::lemma_div_denominator((20 * c + 50_000_000) as int, 20, 5_000_000);
    }
    assert(filled <= 20);
    let t = tenths(c);
    let head = "["@ + repeated('=', filled) + repeated(' ', (20 - filled) as nat) + "] "@;
    let rest = pad_left(decimal(t / 10) + "."@ + decimal(t % 10), 5) + "%"@;
    assert(progress_bar_text(val) == head + rest);
    assert forall|i: int| 0 <= i < 23 implies (head + rest)[i] == head[i] by {}
}

/// The number a progress bar shows for a value of `c` millionths of a
/// point is within half a tenth of a point of it, and a value halfway
/// between two tenths shows the even one.
pub proof fn law_progress_bar_number(c: nat)
    ensures
        100_000 * tenths(c) - 50_000 <= c <= 100_000 * tenths(c) + 50_000,
        c % 100_000 == 50_000 ==> tenths(c) % 2 == 0,
{
    vstd::arithmetic::div_mod::lemma_fundamental_div_mod(c as int, 100_000);
}

} // verus!
