//! Button selection: given an action's resolved rules and a message's
//! buttons, decide which button to click.
//!
//! The strategies follow the action's button type: `player_list` picks the
//! first button containing a configured target, `yes_no` matches a yes/no
//! class, `fixed` matches exact text first. Random fallback, where enabled,
//! draws from the buttons not on the blacklist.

use vstd::prelude::*;
use crate::telethon::TelethonButton;
use crate::text::contains_substring;
use crate::text::lower_of;
use crate::text::lowercase;
use crate::text::spec_contains;
use crate::text::str_eq;

verus! {

/// The rules in force for one action once the per-account config, or its
/// default, is resolved.
pub struct EffectiveConfig {
    pub targets: Vec<String>,
    pub blacklist: Vec<String>,
    pub target_pairs: Vec<(String, String)>,
    pub button_type: String,
    pub random_fallback_enabled: bool,
    pub is_two_step: bool,
    pub delay_min: i32,
    pub delay_max: i32,
}

/// Copy a list of strings.
#[verifier::loop_isolation(false)]
pub fn clone_strings(v: &Vec<String>) -> (r: Vec<String>)
    ensures
        r@ == v@,
{
    let mut out: Vec<String> = Vec::new();
    let n = v.len();
    let mut i: usize = 0;
    while i < n
        invariant
            i <= n,
            out@ =~= v@.take(i as int),
        decreases n - i,
    {
        out.push(v[i].clone());
        proof {
            assert(out@ =~= v@.take(i + 1));
        }
        i = i + 1;
    }
    proof {
        assert(v@.take(n as int) =~= v@);
    }
    out
}

/// Copy a list of string pairs.
#[verifier::loop_isolation(false)]
pub fn clone_string_pairs(v: &Vec<(String, String)>) -> (r: Vec<(String, String)>)
    ensures
        r@ == v@,
{
    let mut out: Vec<(String, String)> = Vec::new();
    let n = v.len();
    let mut i: usize = 0;
    while i < n
        invariant
            i <= n,
            out@ =~= v@.take(i as int),
        decreases n - i,
    {
        out.push((v[i].0.clone(), v[i].1.clone()));
        proof {
            assert(out@ =~= v@.take(i + 1));
        }
        i = i + 1;
    }
    proof {
        assert(v@.take(n as int) =~= v@);
    }
    out
}

/// Copy a button.
pub fn clone_button(b: &TelethonButton) -> (r: TelethonButton)
    ensures
        r == *b,
{
    let data = match &b.data {
        Some(s) => Some(s.clone()),
        None => None,
    };
    let url = match &b.url {
        Some(s) => Some(s.clone()),
        None => None,
    };
    TelethonButton { text: b.text.clone(), kind: b.kind.clone(), data, url }
}

/// The button rows of a message, flattened in row-major order.
pub open spec fn spec_flatten(rows: Seq<Vec<TelethonButton>>) -> Seq<TelethonButton>
    decreases rows.len(),
{
    if rows.len() == 0 {
        Seq::empty()
    } else {
        spec_flatten(rows.drop_last()).add(rows.last()@)
    }
}

/// Flatten a message's button rows.
#[verifier::loop_isolation(false)]
pub fn flatten_buttons(rows: &Vec<Vec<TelethonButton>>) -> (r: Vec<TelethonButton>)
    ensures
        r@ == spec_flatten(rows@),
{
    let mut out: Vec<TelethonButton> = Vec::new();
    let n = rows.len();
    let mut i: usize = 0;
    proof {
        assert(rows@.take(0) =~= Seq::<Vec<TelethonButton>>::empty());
    }
    while i < n
        invariant
            i <= n,
            out@ == spec_flatten(rows@.take(i as int)),
        decreases n - i,
    {
        proof {
            assert(rows@.take(i + 1).drop_last() =~= rows@.take(i as int));
            assert(rows@.take(i + 1).last() == rows@[i as int]);
        }
        let row = &rows[i];
        let m = row.len();
        let mut j: usize = 0;
        while j < m
            invariant
                j <= m,
                m == row@.len(),
                out@ == spec_flatten(rows@.take(i as int)).add(row@.take(j as int)),
            decreases m - j,
        {
            out.push(clone_button(&row[j]));
            proof {
                assert(row@.take(j + 1) =~= row@.take(j as int).push(row@[j as int]));
                assert(spec_flatten(rows@.take(i as int)).add(row@.take(j as int)).push(
                    row@[j as int],
                ) =~= spec_flatten(rows@.take(i as int)).add(row@.take(j + 1)));
            }
            j = j + 1;
        }
        proof {
            assert(row@.take(m as int) =~= row@);
        }
        i = i + 1;
    }
    proof {
        assert(rows@.take(n as int) =~= rows@);
    }
    out
}

/// Whether a list of ids holds one.
#[verifier::loop_isolation(false)]
pub fn contains_i64(v: &Vec<i64>, x: i64) -> (r: bool)
    ensures
        r == v@.contains(x),
{
    let n = v.len();
    let mut i: usize = 0;
    while i < n
        invariant
            i <= n,
            forall|k: int| 0 <= k < i ==> v@[k] != x,
        decreases n - i,
    {
        if v[i] == x {
            return true;
        }
        i = i + 1;
    }
    proof {
        assert(!v@.contains(x)) by {
            if v@.contains(x) {
                let k = choose|k: int| 0 <= k < v@.len() && v@[k] == x;
            }
        }
    }
    false
}

/// Whether a list of strings holds one with this exact text.
#[verifier::loop_isolation(false)]
pub fn contains_string(v: &Vec<String>, x: &str) -> (r: bool)
    ensures
        r == spec_has_string(v@, x@),
{
    let n = v.len();
    let mut i: usize = 0;
    while i < n
        invariant
            i <= n,
            forall|k: int| 0 <= k < i ==> (#[trigger] v@[k])@ != x@,
        decreases n - i,
    {
        if str_eq(v[i].as_str(), x) {
            return true;
        }
        i = i + 1;
    }
    false
}

/// Some string in the list has exactly this text.
pub open spec fn spec_has_string(v: Seq<String>, x: Seq<char>) -> bool {
    exists|k: int| 0 <= k < v.len() && (#[trigger] v[k])@ == x
}

/// The first button whose text contains the target.
pub open spec fn spec_first_containing(buttons: Seq<TelethonButton>, target: Seq<char>) -> Option<
    TelethonButton,
>
    decreases buttons.len(),
{
    if buttons.len() == 0 {
        None
    } else if spec_contains(buttons[0].text@, target) {
        Some(buttons[0])
    } else {
        spec_first_containing(buttons.skip(1), target)
    }
}

/// The first button whose text contains the target, scanning in order.
#[verifier::loop_isolation(false)]
pub fn find_button_containing(buttons: &Vec<TelethonButton>, target: &str) -> (r: Option<
    TelethonButton,
>)
    ensures
        r == spec_first_containing(buttons@, target@),
{
    let n = buttons.len();
    let mut i: usize = 0;
    proof {
        assert(buttons@.skip(0) =~= buttons@);
    }
    while i < n
        invariant
            i <= n,
            spec_first_containing(buttons@, target@) == spec_first_containing(
                buttons@.skip(i as int),
                target@,
            ),
        decreases n - i,
    {
        proof {
            assert(buttons@.skip(i as int)[0] == buttons@[i as int]);
            assert(buttons@.skip(i as int).skip(1) =~= buttons@.skip(i + 1));
        }
        if contains_substring(buttons[i].text.as_str(), target) {
            return Some(clone_button(&buttons[i]));
        }
        i = i + 1;
    }
    proof {
        assert(buttons@.skip(n as int) =~= Seq::<TelethonButton>::empty());
    }
    None
}

/// The first button with exactly this text.
pub open spec fn spec_first_exact(buttons: Seq<TelethonButton>, target: Seq<char>) -> Option<
    TelethonButton,
>
    decreases buttons.len(),
{
    if buttons.len() == 0 {
        None
    } else if buttons[0].text@ == target {
        Some(buttons[0])
    } else {
        spec_first_exact(buttons.skip(1), target)
    }
}

/// The first button with exactly this text, scanning in order.
#[verifier::loop_isolation(false)]
pub fn find_button_exact(buttons: &Vec<TelethonButton>, target: &str) -> (r: Option<
    TelethonButton,
>)
    ensures
        r == spec_first_exact(buttons@, target@),
{
    let n = buttons.len();
    let mut i: usize = 0;
    proof {
        assert(buttons@.skip(0) =~= buttons@);
    }
    while i < n
        invariant
            i <= n,
            spec_first_exact(buttons@, target@) == spec_first_exact(
                buttons@.skip(i as int),
                target@,
            ),
        decreases n - i,
    {
        proof {
            assert(buttons@.skip(i as int)[0] == buttons@[i as int]);
            assert(buttons@.skip(i as int).skip(1) =~= buttons@.skip(i + 1));
        }
        if str_eq(buttons[i].text.as_str(), target) {
            return Some(clone_button(&buttons[i]));
        }
        i = i + 1;
    }
    proof {
        assert(buttons@.skip(n as int) =~= Seq::<TelethonButton>::empty());
    }
    None
}

/// The first target, in order, for which some button contains it, together
/// with that button.
pub open spec fn spec_first_target_hit(targets: Seq<String>, buttons: Seq<TelethonButton>) -> Option<
    TelethonButton,
>
    decreases targets.len(),
{
    if targets.len() == 0 {
        None
    } else {
        match spec_first_containing(buttons, targets[0]@) {
            Some(b) => Some(b),
            None => spec_first_target_hit(targets.skip(1), buttons),
        }
    }
}

/// The first target, in order, for which some button's text is exactly it,
/// together with that button.
pub open spec fn spec_first_target_exact(
    targets: Seq<String>,
    buttons: Seq<TelethonButton>,
) -> Option<TelethonButton>
    decreases targets.len(),
{
    if targets.len() == 0 {
        None
    } else {
        match spec_first_exact(buttons, targets[0]@) {
            Some(b) => Some(b),
            None => spec_first_target_exact(targets.skip(1), buttons),
        }
    }
}

/// Find the first target hit by containment, in target order.
#[verifier::loop_isolation(false)]
pub fn find_target_hit(targets: &Vec<String>, buttons: &Vec<TelethonButton>) -> (r: Option<
    TelethonButton,
>)
    ensures
        r == spec_first_target_hit(targets@, buttons@),
{
    let n = targets.len();
    let mut i: usize = 0;
    proof {
        assert(targets@.skip(0) =~= targets@);
    }
    while i < n
        invariant
            i <= n,
            spec_first_target_hit(targets@, buttons@) == spec_first_target_hit(
                targets@.skip(i as int),
                buttons@,
            ),
        decreases n - i,
    {
        proof {
            assert(targets@.skip(i as int)[0] == targets@[i as int]);
            assert(targets@.skip(i as int).skip(1) =~= targets@.skip(i + 1));
        }
        match find_button_containing(buttons, targets[i].as_str()) {
            Some(b) => {
                return Some(b);
            },
            None => {},
        }
        i = i + 1;
    }
    proof {
        assert(targets@.skip(n as int) =~= Seq::<String>::empty());
    }
    None
}

/// Find the first target hit by exact text, in target order.
#[verifier::loop_isolation(false)]
pub fn find_target_exact(targets: &Vec<String>, buttons: &Vec<TelethonButton>) -> (r: Option<
    TelethonButton,
>)
    ensures
        r == spec_first_target_exact(targets@, buttons@),
{
    let n = targets.len();
    let mut i: usize = 0;
    proof {
        assert(targets@.skip(0) =~= targets@);
    }
    while i < n
        invariant
            i <= n,
            spec_first_target_exact(targets@, buttons@) == spec_first_target_exact(
                targets@.skip(i as int),
                buttons@,
            ),
        decreases n - i,
    {
        proof {
            assert(targets@.skip(i as int)[0] == targets@[i as int]);
            assert(targets@.skip(i as int).skip(1) =~= targets@.skip(i + 1));
        }
        match find_button_exact(buttons, targets[i].as_str()) {
            Some(b) => {
                return Some(b);
            },
            None => {},
        }
        i = i + 1;
    }
    proof {
        assert(targets@.skip(n as int) =~= Seq::<String>::empty());
    }
    None
}

/// The buttons whose text is not on the blacklist, in order.
pub open spec fn spec_not_blacklisted(
    buttons: Seq<TelethonButton>,
    blacklist: Seq<String>,
) -> Seq<TelethonButton>
    decreases buttons.len(),
{
    if buttons.len() == 0 {
        Seq::empty()
    } else {
        let rest = spec_not_blacklisted(buttons.skip(1), blacklist);
        if spec_has_string(blacklist, buttons[0].text@) {
            rest
        } else {
            seq![buttons[0]].add(rest)
        }
    }
}

/// Keep the buttons whose text is not on the blacklist.
#[verifier::loop_isolation(false)]
pub fn filter_blacklist(buttons: &Vec<TelethonButton>, blacklist: &Vec<String>) -> (r: Vec<
    TelethonButton,
>)
    ensures
        r@ == spec_not_blacklisted(buttons@, blacklist@),
{
    let mut out: Vec<TelethonButton> = Vec::new();
    let n = buttons.len();
    let mut i: usize = 0;
    proof {
        assert(buttons@.skip(0) =~= buttons@);
    }
    while i < n
        invariant
            i <= n,
            out@.add(spec_not_blacklisted(buttons@.skip(i as int), blacklist@))
                =~= spec_not_blacklisted(buttons@, blacklist@),
        decreases n - i,
    {
        proof {
            assert(buttons@.skip(i as int)[0] == buttons@[i as int]);
            assert(buttons@.skip(i as int).skip(1) =~= buttons@.skip(i + 1));
        }
        if !contains_string(blacklist, buttons[i].text.as_str()) {
            out.push(clone_button(&buttons[i]));
        }
        proof {
            assert(out@.add(spec_not_blacklisted(buttons@.skip(i + 1), blacklist@))
                =~= spec_not_blacklisted(buttons@, blacklist@));
        }
        i = i + 1;
    }
    proof {
        assert(buttons@.skip(n as int) =~= Seq::<TelethonButton>::empty());
        assert(out@ =~= spec_not_blacklisted(buttons@, blacklist@));
    }
    out
}

/// Every button that survives the blacklist filter came from the input and
/// is not blacklisted.
pub proof fn lemma_not_blacklisted_sound(
    buttons: Seq<TelethonButton>,
    blacklist: Seq<String>,
    i: int,
)
    requires
        0 <= i < spec_not_blacklisted(buttons, blacklist).len(),
    ensures
        buttons.contains(spec_not_blacklisted(buttons, blacklist)[i]),
        !spec_has_string(blacklist, spec_not_blacklisted(buttons, blacklist)[i].text@),
    decreases buttons.len(),
{
    if buttons.len() > 0 {
        let rest = spec_not_blacklisted(buttons.skip(1), blacklist);
        if spec_has_string(blacklist, buttons[0].text@) {
            lemma_not_blacklisted_sound(buttons.skip(1), blacklist, i);
            let e = rest[i];
            let k = choose|k: int| 0 <= k < buttons.skip(1).len() && buttons.skip(1)[k] == e;
            assert(buttons[k + 1] == e);
        } else {
            if i == 0 {
                assert(buttons.contains(buttons[0])) by {
                    assert(buttons[0] == buttons[0]);
                }
            } else {
                lemma_not_blacklisted_sound(buttons.skip(1), blacklist, i - 1);
                let e = rest[i - 1];
                let k = choose|k: int| 0 <= k < buttons.skip(1).len() && buttons.skip(1)[k] == e;
                assert(buttons[k + 1] == e);
            }
        }
    }
}

/// The yes-class of button texts: the lowercased text mentions a yes word
/// or a check mark.
pub open spec fn spec_yes_class(text: Seq<char>) -> bool {
    ||| spec_contains(lower_of(text), "yes"@)
    ||| spec_contains(lower_of(text), "\u{628}\u{644}\u{647}"@)
    ||| spec_contains(lower_of(text), "\u{622}\u{631}\u{647}"@)
    ||| spec_contains(lower_of(text), "\u{2713}"@)
    ||| spec_contains(lower_of(text), "\u{2705}"@)
}

/// The no-class of button texts: the lowercased text mentions a no word or
/// a cross mark.
pub open spec fn spec_no_class(text: Seq<char>) -> bool {
    ||| spec_contains(lower_of(text), "no"@)
    ||| spec_contains(lower_of(text), "\u{62e}\u{6cc}\u{631}"@)
    ||| spec_contains(lower_of(text), "\u{646}\u{647}"@)
    ||| spec_contains(lower_of(text), "\u{2717}"@)
    ||| spec_contains(lower_of(text), "\u{274c}"@)
}

/// Whether the lowercased head target names the yes class, the no class, or
/// neither.
pub open spec fn spec_target_class(target_lower: Seq<char>) -> int {
    if target_lower == "yes"@ || target_lower == "\u{628}\u{644}\u{647}"@ || target_lower
        == "\u{622}\u{631}\u{647}"@ {
        1
    } else if target_lower == "no"@ || target_lower == "\u{62e}\u{6cc}\u{631}"@ || target_lower
        == "\u{646}\u{647}"@ {
        2
    } else {
        0
    }
}

/// Whether one button satisfies the yes/no strategy for the given target.
pub open spec fn spec_yes_no_hit(b: TelethonButton, target: Seq<char>) -> bool {
    let class = spec_target_class(lower_of(target));
    if class == 1 {
        spec_yes_class(b.text@)
    } else if class == 2 {
        spec_no_class(b.text@)
    } else {
        spec_contains(b.text@, target)
    }
}

/// The first button matching the yes/no strategy.
pub open spec fn spec_first_yes_no(buttons: Seq<TelethonButton>, target: Seq<char>) -> Option<
    TelethonButton,
>
    decreases buttons.len(),
{
    if buttons.len() == 0 {
        None
    } else if spec_yes_no_hit(buttons[0], target) {
        Some(buttons[0])
    } else {
        spec_first_yes_no(buttons.skip(1), target)
    }
}

/// Whether this button's text falls in the yes class.
fn is_yes_class(text: &str) -> (r: bool)
    ensures
        r == spec_yes_class(text@),
{
    let lower = lowercase(text);
    contains_substring(lower.as_str(), "yes") || contains_substring(
        lower.as_str(),
        "\u{628}\u{644}\u{647}",
    ) || contains_substring(lower.as_str(), "\u{622}\u{631}\u{647}") || contains_substring(
        lower.as_str(),
        "\u{2713}",
    ) || contains_substring(lower.as_str(), "\u{2705}")
}

/// Whether this button's text falls in the no class.
fn is_no_class(text: &str) -> (r: bool)
    ensures
        r == spec_no_class(text@),
{
    let lower = lowercase(text);
    contains_substring(lower.as_str(), "no") || contains_substring(
        lower.as_str(),
        "\u{62e}\u{6cc}\u{631}",
    ) || contains_substring(lower.as_str(), "\u{646}\u{647}") || contains_substring(
        lower.as_str(),
        "\u{2717}",
    ) || contains_substring(lower.as_str(), "\u{274c}")
}

/// The first button matching the yes/no strategy for the given target.
#[verifier::loop_isolation(false)]
pub fn find_yes_no(buttons: &Vec<TelethonButton>, target: &str) -> (r: Option<TelethonButton>)
    ensures
        r == spec_first_yes_no(buttons@, target@),
{
    let target_lower = lowercase(target);
    let class: i32 = if str_eq(target_lower.as_str(), "yes") || str_eq(
        target_lower.as_str(),
        "\u{628}\u{644}\u{647}",
    ) || str_eq(target_lower.as_str(), "\u{622}\u{631}\u{647}") {
        1
    } else if str_eq(target_lower.as_str(), "no") || str_eq(
        target_lower.as_str(),
        "\u{62e}\u{6cc}\u{631}",
    ) || str_eq(target_lower.as_str(), "\u{646}\u{647}") {
        2
    } else {
        0
    };
    proof {
        assert(class as int == spec_target_class(lower_of(target@)));
    }
    let n = buttons.len();
    let mut i: usize = 0;
    proof {
        assert(buttons@.skip(0) =~= buttons@);
    }
    while i < n
        invariant
            i <= n,
            class as int == spec_target_class(lower_of(target@)),
            spec_first_yes_no(buttons@, target@) == spec_first_yes_no(
                buttons@.skip(i as int),
                target@,
            ),
        decreases n - i,
    {
        proof {
            assert(buttons@.skip(i as int)[0] == buttons@[i as int]);
            assert(buttons@.skip(i as int).skip(1) =~= buttons@.skip(i + 1));
        }
        let hit: bool = if class == 1 {
            is_yes_class(buttons[i].text.as_str())
        } else if class == 2 {
            is_no_class(buttons[i].text.as_str())
        } else {
            contains_substring(buttons[i].text.as_str(), target)
        };
        if hit {
            return Some(clone_button(&buttons[i]));
        }
        i = i + 1;
    }
    proof {
        assert(buttons@.skip(n as int) =~= Seq::<TelethonButton>::empty());
    }
    None
}

/// Relies on rand::random_range over a closed range: the result lies in the
/// range; the range must be non-empty, else the call panics.
#[verifier::external_body]
pub fn rand_in_range_i32(lo: i32, hi: i32) -> (r: i32)
    requires
        lo <= hi,
    ensures
        lo <= r <= hi,
{
    rand::random_range(lo..=hi)
}

/// Relies on rand::random_range over a half-open range: the result is a
/// valid index; the range must be non-empty, else the call panics.
#[verifier::external_body]
pub fn rand_index(n: usize) -> (r: usize)
    requires
        n > 0,
    ensures
        r < n,
{
    rand::random_range(0..n)
}

/// The product of a delay in seconds and 1000, clamped into i32.
pub open spec fn spec_delay_ms(secs: int) -> int {
    if secs * 1000 > i32::MAX {
        i32::MAX as int
    } else if secs * 1000 < i32::MIN {
        i32::MIN as int
    } else {
        secs * 1000
    }
}

/// A delay in seconds converted to milliseconds, saturating.
pub fn delay_to_ms(secs: i32) -> (r: i32)
    ensures
        r as int == spec_delay_ms(secs as int),
{
    let wide: i64 = (secs as i64) * 1000;
    if wide > i32::MAX as i64 {
        i32::MAX
    } else if wide < i32::MIN as i64 {
        i32::MIN
    } else {
        wide as i32
    }
}

/// A drawn pre-click delay is admissible for the config: within the
/// configured range in milliseconds when the range is proper, exactly the
/// minimum otherwise.
pub open spec fn spec_delay_admissible(cfg_min: int, cfg_max: int, delay: int) -> bool {
    if cfg_min < cfg_max {
        spec_delay_ms(cfg_min) <= delay <= spec_delay_ms(cfg_max)
    } else {
        delay == spec_delay_ms(cfg_min)
    }
}

/// Draw the pre-click delay for a config, in milliseconds.
pub fn draw_delay_ms(delay_min: i32, delay_max: i32) -> (r: i32)
    ensures
        spec_delay_admissible(delay_min as int, delay_max as int, r as int),
{
    if delay_min < delay_max {
        let secs = rand_in_range_i32(delay_min, delay_max);
        let r = delay_to_ms(secs);
        proof {
            lemma_delay_ms_monotone(delay_min as int, secs as int);
            lemma_delay_ms_monotone(secs as int, delay_max as int);
        }
        r
    } else {
        delay_to_ms(delay_min)
    }
}

/// Saturated millisecond conversion preserves order.
proof fn lemma_delay_ms_monotone(a: int, b: int)
    requires
        a <= b,
    ensures
        spec_delay_ms(a) <= spec_delay_ms(b),
{
}

/// What a selection outcome must satisfy, given the effective rules and the
/// flattened buttons. The deterministic strategies are pinned; the random
/// fallback is pinned to the blacklist-filtered candidates.
pub open spec fn spec_selection_ok(
    targets: Seq<String>,
    blacklist: Seq<String>,
    button_type: Seq<char>,
    fallback: bool,
    buttons: Seq<TelethonButton>,
    r: Option<(TelethonButton, i32)>,
) -> bool {
    if buttons.len() == 0 {
        r is None
    } else if button_type == "yes_no"@ {
        let target: Seq<char> = if targets.len() > 0 {
            targets[0]@
        } else {
            "yes"@
        };
        match spec_first_yes_no(buttons, target) {
            Some(b) => r is Some && r->Some_0.0 == b,
            None => {
                if fallback {
                    r is Some && r->Some_0.0 == buttons[0]
                } else {
                    r is None
                }
            },
        }
    } else if button_type == "fixed"@ {
        match spec_first_target_exact(targets, buttons) {
            Some(b) => r is Some && r->Some_0.0 == b,
            None => match spec_first_target_hit(targets, buttons) {
                Some(b) => r is Some && r->Some_0.0 == b,
                None => r is None,
            },
        }
    } else {
        // player_list and any unrecognised type
        match spec_first_target_hit(targets, buttons) {
            Some(b) => r is Some && r->Some_0.0 == b,
            None => {
                if fallback {
                    let candidates = spec_not_blacklisted(buttons, blacklist);
                    if candidates.len() > 0 {
                        r is Some && candidates.contains(r->Some_0.0)
                    } else {
                        r is None
                    }
                } else {
                    r is None
                }
            },
        }
    }
}

/// Select which button to click for a one-step action, and the pre-click
/// delay in milliseconds.
pub fn select_target_button(cfg: &EffectiveConfig, buttons: &Vec<TelethonButton>) -> (r: Option<
    (TelethonButton, i32),
>)
    ensures
        spec_selection_ok(
            cfg.targets@,
            cfg.blacklist@,
            cfg.button_type@,
            cfg.random_fallback_enabled,
            buttons@,
            r,
        ),
        (match r {
            Some(p) => spec_delay_admissible(cfg.delay_min as int, cfg.delay_max as int, p.1 as int),
            None => true,
        }),
{
    if buttons.len() == 0 {
        return None;
    }
    let delay = draw_delay_ms(cfg.delay_min, cfg.delay_max);
    if str_eq(cfg.button_type.as_str(), "yes_no") {
        let picked = if cfg.targets.len() > 0 {
            find_yes_no(buttons, cfg.targets[0].as_str())
        } else {
            find_yes_no(buttons, "yes")
        };
        match picked {
            Some(b) => Some((b, delay)),
            None => {
                if cfg.random_fallback_enabled {
                    Some((clone_button(&buttons[0]), delay))
                } else {
                    None
                }
            },
        }
    } else if str_eq(cfg.button_type.as_str(), "fixed") {
        match find_target_exact(&cfg.targets, buttons) {
            Some(b) => Some((b, delay)),
            None => match find_target_hit(&cfg.targets, buttons) {
                Some(b) => Some((b, delay)),
                None => None,
            },
        }
    } else {
        match find_target_hit(&cfg.targets, buttons) {
            Some(b) => Some((b, delay)),
            None => {
                if cfg.random_fallback_enabled {
                    let candidates = filter_blacklist(buttons, &cfg.blacklist);
                    if candidates.len() > 0 {
                        let idx = rand_index(candidates.len());
                        proof {
                            assert(candidates@.contains(candidates@[idx as int])) by {
                                assert(candidates@[idx as int] == candidates@[idx as int]);
                            }
                        }
                        Some((clone_button(&candidates[idx]), delay))
                    } else {
                        None
                    }
                } else {
                    None
                }
            },
        }
    }
}

/// With random fallback disabled and no target hit, nothing is clicked, for
/// the player-list strategy and for unknown strategies.
pub proof fn lemma_no_fallback_no_click(
    targets: Seq<String>,
    blacklist: Seq<String>,
    button_type: Seq<char>,
    buttons: Seq<TelethonButton>,
    r: Option<(TelethonButton, i32)>,
)
    requires
        spec_selection_ok(targets, blacklist, button_type, false, buttons, r),
        button_type != "yes_no"@,
        button_type != "fixed"@,
        spec_first_target_hit(targets, buttons) is None,
    ensures
        r is None,
{
}

/// A random-fallback pick is never a blacklisted button.
pub proof fn lemma_fallback_respects_blacklist(
    targets: Seq<String>,
    blacklist: Seq<String>,
    button_type: Seq<char>,
    fallback: bool,
    buttons: Seq<TelethonButton>,
    r: Option<(TelethonButton, i32)>,
)
    requires
        spec_selection_ok(targets, blacklist, button_type, fallback, buttons, r),
        button_type != "yes_no"@,
        button_type != "fixed"@,
        spec_first_target_hit(targets, buttons) is None,
        r is Some,
    ensures
        !spec_has_string(blacklist, r->Some_0.0.text@),
{
    let candidates = spec_not_blacklisted(buttons, blacklist);
    assert(candidates.contains(r->Some_0.0));
    let i = choose|i: int| 0 <= i < candidates.len() && candidates[i] == r->Some_0.0;
    lemma_not_blacklisted_sound(buttons, blacklist, i);
}

/// The first configured pair whose first name is on a cached button and
/// whose second name is on a current button.
pub open spec fn spec_first_pair_hit(
    pairs: Seq<(String, String)>,
    first_buttons: Seq<TelethonButton>,
    second_buttons: Seq<TelethonButton>,
) -> Option<(String, String)>
    decreases pairs.len(),
{
    if pairs.len() == 0 {
        None
    } else if spec_first_containing(first_buttons, pairs[0].0@) is Some && spec_first_containing(
        second_buttons,
        pairs[0].1@,
    ) is Some {
        Some(pairs[0])
    } else {
        spec_first_pair_hit(pairs.skip(1), first_buttons, second_buttons)
    }
}

/// Find the first configured pair available across the two prompts.
#[verifier::loop_isolation(false)]
pub fn find_pair_hit(
    pairs: &Vec<(String, String)>,
    first_buttons: &Vec<TelethonButton>,
    second_buttons: &Vec<TelethonButton>,
) -> (r: Option<(String, String)>)
    ensures
        r == spec_first_pair_hit(pairs@, first_buttons@, second_buttons@),
{
    let n = pairs.len();
    let mut i: usize = 0;
    proof {
        assert(pairs@.skip(0) =~= pairs@);
    }
    while i < n
        invariant
            i <= n,
            spec_first_pair_hit(pairs@, first_buttons@, second_buttons@) == spec_first_pair_hit(
                pairs@.skip(i as int),
                first_buttons@,
                second_buttons@,
            ),
        decreases n - i,
    {
        proof {
            assert(pairs@.skip(i as int)[0] == pairs@[i as int]);
            assert(pairs@.skip(i as int).skip(1) =~= pairs@.skip(i + 1));
        }
        let a_hit = match find_button_containing(first_buttons, pairs[i].0.as_str()) {
            Some(_) => true,
            None => false,
        };
        if a_hit {
            let b_hit = match find_button_containing(second_buttons, pairs[i].1.as_str()) {
                Some(_) => true,
                None => false,
            };
            if b_hit {
                return Some((pairs[i].0.clone(), pairs[i].1.clone()));
            }
        }
        i = i + 1;
    }
    proof {
        assert(pairs@.skip(n as int) =~= Seq::<(String, String)>::empty());
    }
    None
}

/// What a resolved two-step pair must satisfy: the first configured pair
/// available across both prompts when one exists; else, with fallback on, a
/// non-blacklisted name from each prompt; else nothing.
pub open spec fn spec_pair_choice_ok(
    pairs: Seq<(String, String)>,
    blacklist: Seq<String>,
    fallback: bool,
    first_buttons: Seq<TelethonButton>,
    second_buttons: Seq<TelethonButton>,
    r: Option<(String, String)>,
) -> bool {
    match spec_first_pair_hit(pairs, first_buttons, second_buttons) {
        Some(p) => r == Some(p),
        None => {
            if fallback {
                let av_a = spec_not_blacklisted(first_buttons, blacklist);
                let av_b = spec_not_blacklisted(second_buttons, blacklist);
                if av_a.len() > 0 && av_b.len() > 0 {
                    match r {
                        Some(p) => {
                            &&& (exists|i: int|
                                0 <= i < av_a.len() && (#[trigger] av_a[i]).text@ == p.0@)
                            &&& (exists|i: int|
                                0 <= i < av_b.len() && (#[trigger] av_b[i]).text@ == p.1@)
                        },
                        None => false,
                    }
                } else {
                    r is None
                }
            } else {
                r is None
            }
        },
    }
}

/// Resolve the pair for a two-step action.
pub fn resolve_pair(
    pairs: &Vec<(String, String)>,
    blacklist: &Vec<String>,
    fallback: bool,
    first_buttons: &Vec<TelethonButton>,
    second_buttons: &Vec<TelethonButton>,
) -> (r: Option<(String, String)>)
    ensures
        spec_pair_choice_ok(pairs@, blacklist@, fallback, first_buttons@, second_buttons@, r),
{
    match find_pair_hit(pairs, first_buttons, second_buttons) {
        Some(p) => Some(p),
        None => {
            if fallback {
                let av_a = filter_blacklist(first_buttons, blacklist);
                let av_b = filter_blacklist(second_buttons, blacklist);
                if av_a.len() > 0 && av_b.len() > 0 {
                    let a_idx = rand_index(av_a.len());
                    let mut b_idx = rand_index(av_b.len());
                    if str_eq(av_a[a_idx].text.as_str(), av_b[b_idx].text.as_str()) && av_b.len()
                        > 1 {
                        b_idx = (b_idx + 1) % av_b.len();
                    }
                    Some((av_a[a_idx].text.clone(), av_b[b_idx].text.clone()))
                } else {
                    None
                }
            } else {
                None
            }
        },
    }
}

} // verus!
