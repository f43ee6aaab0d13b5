//! Validated touchscreen policy. Parsed on layout load, never in a mouse callback.
use vstd::prelude::*;
use crate::settings::Settings;
use crate::text::{self, chars_of, to_lower, trimmed_lower};

verus! {

/// A key that, held while touching, keeps control in the touched app.
#[derive(Clone, Copy, Debug, PartialEq, Eq, Structural)]
pub enum Modifier {
    NoModifier,
    Ctrl,
    Alt,
    Shift,
    Win,
}

/// What a [`TouchGesture`] holds.
pub struct GestureView {
    pub bypass: bool,
    pub contact: bool,
}

/// Keep an override or unselected display bypassed for the entire gesture,
/// including trailing promoted moves after finger-up.
#[derive(Clone, Copy, Default)]
pub struct TouchGesture {
    bypass: bool,
    contact: bool,
}

impl View for TouchGesture {
    type V = GestureView;

    closed spec fn view(&self) -> GestureView {
        GestureView { bypass: self.bypass, contact: self.contact }
    }
}

/// The gesture after one promoted touch message, and whether the service may act on it.
pub open spec fn gesture_step(g: GestureView, allowed: bool, down: bool, up: bool) -> (GestureView, bool) {
    let bypass = if !g.contact && (down || !g.bypass) { !allowed } else { g.bypass };
    let contact = if up { false } else if down { true } else { g.contact };
    (GestureView { bypass, contact }, !bypass)
}

impl TouchGesture {
    pub fn new() -> (gesture: Self)
        ensures
            gesture@ == (GestureView { bypass: false, contact: false }),
    {
        Self { bypass: false, contact: false }
    }

    /// Whether a finger of the gesture is down.
    pub fn in_contact(&self) -> (contact: bool)
        ensures
            contact == self@.contact,
    {
        self.contact
    }

    pub fn accepts(&mut self, allowed: bool, down: bool, up: bool) -> (accepted: bool)
        ensures
            (final(self)@, accepted) == gesture_step(old(self)@, allowed, down, up),
    {
        if !self.contact && (down || !self.bypass) {
            self.bypass = !allowed;
        }
        if down {
            self.contact = true;
        }
        if up {
            self.contact = false;
        }
        !self.bypass
    }
}

/// The characters that separate executable names in an app rule.
pub open spec fn is_app_separator(c: char) -> bool {
    c == ';' || c == '\r' || c == '\n'
}

/// The fields of `s` between separators, as `str::split` yields them: one more
/// field than there are separators, empty fields included.
pub open spec fn split_fields(s: Seq<char>) -> Seq<Seq<char>>
    decreases s.len(),
{
    if s.len() == 0 {
        seq![Seq::empty()]
    } else {
        let fields = split_fields(s.drop_last());
        if is_app_separator(s.last()) {
            fields.push(Seq::empty())
        } else {
            fields.update(fields.len() - 1, fields.last().push(s.last()))
        }
    }
}

proof fn lemma_split_fields_nonempty(s: Seq<char>)
    ensures
        split_fields(s).len() >= 1,
    decreases s.len(),
{
    if s.len() > 0 {
        lemma_split_fields_nonempty(s.drop_last());
    }
}

/// The names that a list of fields yields: each field trimmed, empty ones
/// dropped, the rest in ASCII lowercase, in order.
pub open spec fn app_names(fields: Seq<Seq<char>>) -> Seq<Seq<char>>
    decreases fields.len(),
{
    if fields.len() == 0 {
        Seq::empty()
    } else {
        let names = app_names(fields.drop_last());
        let name = text::trim(fields.last());
        if name.len() == 0 {
            names
        } else {
            names.push(text::lower_all(name))
        }
    }
}

/// The executable names of an app rule.
pub open spec fn app_list(value: Seq<char>) -> Seq<Seq<char>> {
    app_names(split_fields(value))
}

/// The texts that a list of strings holds.
pub open spec fn texts(v: Seq<String>) -> Seq<Seq<char>> {
    v.map_values(|s: String| s@)
}

/// Splits an app rule at `;` and line breaks, trims each name, drops empty ones
/// and lowercases the rest.
pub fn apps(value: &str) -> (names: Vec<String>)
    ensures
        texts(names@) == app_list(value@),
{
    let chars = chars_of(value);
    let mut names: Vec<String> = Vec::new();
    let mut start: usize = 0;
    let mut i: usize = 0;
    let ghost mut done: Seq<Seq<char>> = Seq::empty();
    proof {
        assert(chars@.take(0) =~= Seq::<char>::empty());
        assert(chars@.subrange(0, 0) =~= Seq::<char>::empty());
        assert(split_fields(Seq::<char>::empty()) =~= seq![Seq::<char>::empty()]);
    }
    while i < chars.len()
        invariant
            start <= i <= chars.len(),
            chars@ == value@,
            split_fields(chars@.take(i as int)) == done.push(chars@.subrange(start as int, i as int)),
            texts(names@) == app_names(done),
        decreases chars.len() - i,
    {
        let c = chars[i];
        proof {
            assert(chars@.take(i + 1).drop_last() =~= chars@.take(i as int));
            lemma_split_fields_nonempty(chars@.take(i as int));
        }
        if c == ';' || c == '\r' || c == '\n' {
            let field = trimmed_lower(&chars, start, i);
            let ghost old_names = names@;
            let ghost old_done = done;
            proof {
                done = done.push(chars@.subrange(start as int, i as int));
                assert(done.drop_last() =~= old_done);
            }
            match field {
                Some(name) => {
                    names.push(name);
                },
                None => {},
            }
            proof {
                assert(chars@.subrange(i + 1, i + 1) =~= Seq::<char>::empty());
                assert(texts(names@) =~= app_names(done)) by {
                    if names@.len() > old_names.len() {
                        assert(names@ =~= old_names.push(names@.last()));
                    } else {
                        assert(names@ =~= old_names);
                    }
                }
            }
            start = i + 1;
        } else {
            proof {
                assert(chars@.subrange(start as int, i + 1) =~= chars@.subrange(
                    start as int,
                    i as int,
                ).push(c));
            }
        }
        i = i + 1;
    }
    let field = trimmed_lower(&chars, start, i);
    let ghost all = done.push(chars@.subrange(start as int, i as int));
    proof {
        assert(chars@.take(i as int) =~= value@);
        assert(all.drop_last() =~= done);
    }
    let ghost old_names = names@;
    match field {
        Some(name) => {
            names.push(name);
        },
        None => {},
    }
    proof {
        assert(texts(names@) =~= app_names(all)) by {
            if names@.len() > old_names.len() {
                assert(names@ =~= old_names.push(names@.last()));
            } else {
                assert(names@ =~= old_names);
            }
        }
    }
    names
}

/// The characters that separate directories in a process image path.
pub open spec fn is_path_separator(c: char) -> bool {
    c == '\\' || c == '/'
}

/// The executable's file name: the text after the last path separator.
pub open spec fn basename(path: Seq<char>) -> Seq<char>
    decreases path.len(),
{
    if path.len() == 0 {
        path
    } else if is_path_separator(path.last()) {
        Seq::empty()
    } else {
        basename(path.drop_last()).push(path.last())
    }
}

proof fn lemma_basename(path: Seq<char>, k: int)
    requires
        0 <= k <= path.len(),
        forall|j: int| k <= j < path.len() ==> !is_path_separator(#[trigger] path[j]),
        k == 0 || is_path_separator(path[k - 1]),
    ensures
        basename(path) == path.subrange(k, path.len() as int),
    decreases path.len(),
{
    if path.len() > k {
        lemma_basename(path.drop_last(), k);
        assert(path.drop_last().subrange(k, path.len() - 1).push(path.last()) =~= path.subrange(
            k,
            path.len() as int,
        ));
    } else if k > 0 {
        assert(path.subrange(k, k) =~= Seq::<char>::empty());
    } else {
        assert(path =~= Seq::<char>::empty());
    }
}

/// Whether some name of `names` equals `name` up to ASCII case.
pub open spec fn names_contain(names: Seq<Seq<char>>, name: Seq<char>) -> bool {
    exists|i: int| 0 <= i < names.len() && text::eq_ignore_case(#[trigger] names[i], name)
}

/// Exact executable basenames, case-insensitive. Keep wins over restore.
/// An unresolved process is safe only when there are no app rules to enforce.
pub open spec fn restores(keep: Seq<Seq<char>>, restore: Seq<Seq<char>>, path: Option<Seq<char>>) -> bool {
    if keep.len() == 0 && restore.len() == 0 {
        true
    } else {
        match path {
            None => false,
            Some(p) => {
                &&& !names_contain(keep, basename(p))
                &&& (restore.len() == 0 || names_contain(restore, basename(p)))
            },
        }
    }
}

/// The text of an optional string.
pub open spec fn opt_text(path: Option<&str>) -> Option<Seq<char>> {
    match path {
        Some(p) => Some(p@),
        None => None,
    }
}

fn same_ignoring_case(a: &Vec<char>, b: &Vec<char>) -> (same: bool)
    ensures
        same == text::eq_ignore_case(a@, b@),
{
    if a.len() != b.len() {
        assert(text::lower_all(a@).len() != text::lower_all(b@).len());
        return false;
    }
    let mut i: usize = 0;
    while i < a.len()
        invariant
            a.len() == b.len(),
            i <= a.len(),
            forall|k: int| 0 <= k < i ==> text::lower(#[trigger] a@[k]) == text::lower(b@[k]),
        decreases a.len() - i,
    {
        if to_lower(a[i]) != to_lower(b[i]) {
            assert(text::lower_all(a@)[i as int] != text::lower_all(b@)[i as int]);
            return false;
        }
        i = i + 1;
    }
    assert(text::lower_all(a@) =~= text::lower_all(b@));
    true
}

fn contains_name(names: &Vec<String>, name: &Vec<char>) -> (found: bool)
    ensures
        found == names_contain(texts(names@), name@),
{
    let mut i: usize = 0;
    while i < names.len()
        invariant
            i <= names.len(),
            forall|k: int| 0 <= k < i ==> !text::eq_ignore_case(#[trigger] texts(names@)[k], name@),
        decreases names.len() - i,
    {
        let candidate = chars_of(names[i].as_str());
        if same_ignoring_case(&candidate, name) {
            assert(text::eq_ignore_case(texts(names@)[i as int], name@));
            return true;
        }
        i = i + 1;
    }
    false
}

/// The modifier that a setting names, case-insensitively; anything else is none.
pub open spec fn parse_modifier(text: Seq<char>) -> Modifier {
    let l = text::lower_all(text);
    if l == seq!['c', 't', 'r', 'l'] {
        Modifier::Ctrl
    } else if l == seq!['a', 'l', 't'] {
        Modifier::Alt
    } else if l == seq!['s', 'h', 'i', 'f', 't'] {
        Modifier::Shift
    } else if l == seq!['w', 'i', 'n'] {
        Modifier::Win
    } else {
        Modifier::NoModifier
    }
}

fn is_word(v: &Vec<char>, word: &[char]) -> (same: bool)
    ensures
        same == (v@ == word@),
{
    if v.len() != word.len() {
        return false;
    }
    let mut i: usize = 0;
    while i < v.len()
        invariant
            v.len() == word@.len(),
            i <= v.len(),
            forall|k: int| 0 <= k < i ==> #[trigger] v@[k] == word@[k],
        decreases v.len() - i,
    {
        if v[i] != word[i] {
            return false;
        }
        i = i + 1;
    }
    assert(v@ =~= word@);
    true
}

fn modifier_from(text: &str) -> (modifier: Modifier)
    ensures
        modifier == parse_modifier(text@),
{
    let chars = chars_of(text);
    let mut lowered: Vec<char> = Vec::new();
    let mut i: usize = 0;
    while i < chars.len()
        invariant
            i <= chars.len(),
            chars@ == text@,
            lowered@ == text::lower_all(chars@.take(i as int)),
        decreases chars.len() - i,
    {
        lowered.push(to_lower(chars[i]));
        assert(text::lower_all(chars@.take(i + 1)) =~= text::lower_all(chars@.take(i as int)).push(
            text::lower(chars@[i as int]),
        ));
        i = i + 1;
    }
    assert(chars@.take(i as int) =~= text@);
    let ctrl = ['c', 't', 'r', 'l'];
    let alt = ['a', 'l', 't'];
    let shift = ['s', 'h', 'i', 'f', 't'];
    let win = ['w', 'i', 'n'];
    assert(ctrl@ =~= seq!['c', 't', 'r', 'l']);
    assert(alt@ =~= seq!['a', 'l', 't']);
    assert(shift@ =~= seq!['s', 'h', 'i', 'f', 't']);
    assert(win@ =~= seq!['w', 'i', 'n']);
    if is_word(&lowered, ctrl.as_slice()) {
        Modifier::Ctrl
    } else if is_word(&lowered, alt.as_slice()) {
        Modifier::Alt
    } else if is_word(&lowered, shift.as_slice()) {
        Modifier::Shift
    } else if is_word(&lowered, win.as_slice()) {
        Modifier::Win
    } else {
        Modifier::NoModifier
    }
}

/// The restoration delay that a configured value becomes: clamped to 0..=5000 ms.
pub open spec fn clamp_delay(delay: i32) -> u64 {
    if delay < 0 {
        0
    } else if delay > 5000 {
        5000
    } else {
        delay as u64
    }
}

/// The touchscreen policy that one configuration gives, apart from the
/// selected display rectangles, which the adapter parses and tests itself.
#[derive(Clone, Debug)]
pub struct TouchPolicy {
    pub include_stylus: bool,
    pub delay_ms: u64,
    pub on_mouse_move: bool,
    pub all_displays: bool,
    pub modifier: Modifier,
    pub keep_apps: Vec<String>,
    pub restore_apps: Vec<String>,
}

impl TouchPolicy {
    /// The policy that `layout` describes.
    pub open spec fn from_settings(self, layout: Settings) -> bool {
        &&& self.include_stylus == layout.stylus_mouse_independent
        &&& self.delay_ms == clamp_delay(layout.focus_restore_delay)
        &&& self.on_mouse_move == layout.focus_restore_on_mouse_move
        &&& self.all_displays == layout.touch_all_displays
        &&& self.modifier == parse_modifier(layout.touch_override_modifier@)
        &&& texts(self.keep_apps@) == app_list(layout.focus_keep_apps@)
        &&& texts(self.restore_apps@) == app_list(layout.focus_restore_apps@)
    }

    pub fn from_layout(layout: &Settings) -> (policy: Self)
        ensures
            policy.from_settings(*layout),
    {
        let delay = if layout.focus_restore_delay < 0 {
            0
        } else if layout.focus_restore_delay > 5000 {
            5000
        } else {
            layout.focus_restore_delay as u64
        };
        TouchPolicy {
            include_stylus: layout.stylus_mouse_independent,
            delay_ms: delay,
            on_mouse_move: layout.focus_restore_on_mouse_move,
            all_displays: layout.touch_all_displays,
            modifier: modifier_from(layout.touch_override_modifier.as_str()),
            keep_apps: apps(layout.focus_keep_apps.as_str()),
            restore_apps: apps(layout.focus_restore_apps.as_str()),
        }
    }

    /// Exact executable basenames, case-insensitive. Keep wins over restore.
    /// An unresolved process is safe only when there are no app rules to enforce.
    pub fn restores_app(&self, path: Option<&str>) -> (restore: bool)
        ensures
            restore == restores(texts(self.keep_apps@), texts(self.restore_apps@), opt_text(path)),
    {
        if self.keep_apps.len() == 0 && self.restore_apps.len() == 0 {
            return true;
        }
        let path = match path {
            Some(p) => p,
            None => {
                return false;
            },
        };
        let chars = chars_of(path);
        let mut k = chars.len();
        while k > 0 && !(chars[k - 1] == '\\' || chars[k - 1] == '/')
            invariant
                k <= chars.len(),
                forall|j: int| k <= j < chars.len() ==> !is_path_separator(#[trigger] chars@[j]),
            decreases k,
        {
            k = k - 1;
        }
        proof {
            lemma_basename(chars@, k as int);
        }
        let mut name: Vec<char> = Vec::new();
        let mut i = k;
        while i < chars.len()
            invariant
                k <= i <= chars.len(),
                name@ == chars@.subrange(k as int, i as int),
            decreases chars.len() - i,
        {
            name.push(chars[i]);
            assert(name@ =~= chars@.subrange(k as int, i + 1));
            i = i + 1;
        }
        !contains_name(&self.keep_apps, &name) && (self.restore_apps.len() == 0 || contains_name(
            &self.restore_apps,
            &name,
        ))
    }
}

impl Default for TouchPolicy {
    fn default() -> (policy: Self)
        ensures
            policy.delay_ms == 120,
            !policy.include_stylus,
            !policy.on_mouse_move,
            policy.all_displays,
            policy.modifier == Modifier::NoModifier,
            policy.keep_apps@.len() == 0,
            policy.restore_apps@.len() == 0,
    {
        let layout = Settings::default();
        let policy = Self::from_layout(&layout);
        proof {
            assert(split_fields(Seq::<char>::empty()) =~= seq![Seq::<char>::empty()]);
            assert(text::trim(Seq::<char>::empty()).len() == 0);
            assert(seq![Seq::<char>::empty()].drop_last() =~= Seq::<Seq<char>>::empty());
            assert(text::lower_all(Seq::<char>::empty()) =~= Seq::<char>::empty());
            let one: Seq<Seq<char>> = seq![Seq::<char>::empty()];
            assert(one.last() == Seq::<char>::empty());
            assert(one.len() == 1);
            assert(app_names(one.drop_last()) == Seq::<Seq<char>>::empty());
            assert(app_names(one) =~= Seq::<Seq<char>>::empty());
            assert(app_list(layout.focus_keep_apps@) =~= Seq::<Seq<char>>::empty());
            assert(texts(policy.keep_apps@).len() == policy.keep_apps@.len());
            assert(texts(policy.restore_apps@).len() == policy.restore_apps@.len());
        }
        policy
    }
}

/// Keep an override or unselected display bypassed for the entire gesture: a
/// finger-down decides afresh when no contact is in progress; while a finger is
/// down the decision holds, so moving across a display boundary mid-drag does
/// not change it; and an overridden gesture stays overridden, through the
/// release of the modifier and the trailing moves after finger-up, until the next
/// finger-down.
pub proof fn gesture_decision_holds(g: GestureView, allowed: bool, down: bool, up: bool)
    ensures
        !g.contact && down ==> gesture_step(g, allowed, down, up).0.bypass == !allowed,
        g.contact ==> gesture_step(g, allowed, down, up).0.bypass == g.bypass,
        g.bypass && !down ==> gesture_step(g, allowed, down, up).0.bypass && !gesture_step(
            g,
            allowed,
            down,
            up,
        ).1,
        gesture_step(g, allowed, down, up).1 == !gesture_step(g, allowed, down, up).0.bypass,
{
}

/// A gesture follows the policy until it is decided: with no finger in contact
/// and the gesture not bypassed, every message (a move or pen hover before the
/// finger-down included) is accepted exactly when the policy allows its
/// position, and a refused one bypasses the gesture. A finger-down always
/// decides anew; during a contact the decision holds. The contact follows the
/// last finger-down or finger-up.
pub proof fn gesture_follows_policy_until_decided(g: GestureView, allowed: bool, down: bool, up: bool)
    ensures
        (!g.contact && !g.bypass) ==> gesture_step(g, allowed, down, up).1 == allowed
            && gesture_step(g, allowed, down, up).0.bypass == !allowed,
        (!g.contact && down) ==> gesture_step(g, allowed, down, up).1 == allowed,
        g.contact ==> gesture_step(g, allowed, down, up).1 == !g.bypass,
        gesture_step(g, allowed, down, up).0.contact == if up {
            false
        } else if down {
            true
        } else {
            g.contact
        },
{
}

proof fn lemma_unseparated_is_one_field(value: Seq<char>)
    requires
        forall|k: int| 0 <= k < value.len() ==> #[trigger] value[k] != ';' && value[k] != '\r'
            && value[k] != '\n',
    ensures
        split_fields(value) == seq![value],
    decreases value.len(),
{
    if value.len() > 0 {
        let prefix = value.drop_last();
        assert forall|k: int| 0 <= k < prefix.len() implies #[trigger] prefix[k] != ';' && prefix[k]
            != '\r' && prefix[k] != '\n' by {
            assert(prefix[k] == value[k]);
        }
        lemma_unseparated_is_one_field(prefix);
        assert(value[value.len() - 1] == value.last());
        assert(prefix.push(value.last()) =~= value);
        assert(seq![prefix].update(0, prefix.push(value.last())) =~= seq![value]);
    } else {
        assert(value =~= Seq::<char>::empty());
    }
}

/// App rules are split only at `;`, CR and LF: a rule with none of them whose
/// trimmed text is not empty names exactly one executable, that trimmed text in
/// ASCII lowercase, inner spaces kept (`Adobe Premiere Pro.exe` is one name).
/// One with nothing but whitespace names none.
pub proof fn unseparated_rule_is_one_name(value: Seq<char>)
    requires
        forall|k: int| 0 <= k < value.len() ==> #[trigger] value[k] != ';' && value[k] != '\r'
            && value[k] != '\n',
    ensures
        text::trim(value).len() > 0 ==> app_list(value) == seq![text::lower_all(text::trim(value))],
        text::trim(value).len() == 0 ==> app_list(value).len() == 0,
{
    lemma_unseparated_is_one_field(value);
    let fields = seq![value];
    assert(fields.drop_last() =~= Seq::<Seq<char>>::empty());
    assert(fields.last() == value);
    assert(app_names(Seq::<Seq<char>>::empty()) == Seq::<Seq<char>>::empty());
    assert(app_names(fields.drop_last()) == Seq::<Seq<char>>::empty());
    assert(app_list(value) == app_names(fields));
    if text::trim(value).len() > 0 {
        assert(Seq::<Seq<char>>::empty().push(text::lower_all(text::trim(value))) =~= seq![
            text::lower_all(text::trim(value)),
        ]);
    }
}

/// App rules: keep wins over restore, and an unresolved process is restored only
/// when there are no app rules to enforce.
pub proof fn keep_rule_wins(keep: Seq<Seq<char>>, restore: Seq<Seq<char>>, path: Seq<char>)
    ensures
        names_contain(keep, basename(path)) ==> !restores(keep, restore, Some(path)),
        restores(keep, restore, None) == (keep.len() == 0 && restore.len() == 0),
        restore.len() > 0 && !names_contain(restore, basename(path)) ==> !restores(
            keep,
            restore,
            Some(path),
        ),
{
}

/// The configured delay always lies within 0..=5000 ms, and a delay inside that
/// range is kept exactly.
pub proof fn delay_is_clamped(delay: i32)
    ensures
        clamp_delay(delay) <= 5000,
        0 <= delay <= 5000 ==> clamp_delay(delay) == delay,
{
}

proof fn lemma_fields_have_no_separator(s: Seq<char>)
    ensures
        forall|i: int, k: int|
            0 <= i < split_fields(s).len() && 0 <= k < split_fields(s)[i].len() ==> !is_app_separator(
                #[trigger] split_fields(s)[i][k],
            ),
    decreases s.len(),
{
    if s.len() > 0 {
        lemma_fields_have_no_separator(s.drop_last());
        lemma_split_fields_nonempty(s.drop_last());
        let f = split_fields(s.drop_last());
        if !is_app_separator(s.last()) {
            let g = split_fields(s);
            assert forall|i: int, k: int| 0 <= i < g.len() && 0 <= k < g[i].len() implies !is_app_separator(
                #[trigger] g[i][k],
            ) by {
                if i == f.len() - 1 {
                    if k < f[i].len() {
                        assert(g[i][k] == f[i][k]);
                    }
                } else {
                    assert(g[i] == f[i]);
                }
            }
        } else {
            let g = split_fields(s);
            assert forall|i: int, k: int| 0 <= i < g.len() && 0 <= k < g[i].len() implies !is_app_separator(
                #[trigger] g[i][k],
            ) by {
                if i < f.len() {
                    assert(g[i] == f[i]);
                }
            }
        }
    }
}

proof fn lemma_trim_start_is_suffix(s: Seq<char>)
    ensures
        text::trim_start(s).len() <= s.len(),
        text::trim_start(s) == s.subrange(s.len() - text::trim_start(s).len(), s.len() as int),
        text::trim_start(s).len() > 0 ==> !text::is_whitespace(text::trim_start(s)[0]),
    decreases s.len(),
{
    if s.len() > 0 && text::is_whitespace(s[0]) {
        lemma_trim_start_is_suffix(s.drop_first());
        assert(s.drop_first().subrange(s.len() - 1 - text::trim_start(s).len(), s.len() - 1) =~= s.subrange(
            s.len() - text::trim_start(s).len(),
            s.len() as int,
        ));
    } else {
        assert(s.subrange(0, s.len() as int) =~= s);
    }
}

proof fn lemma_trim_end_is_prefix(s: Seq<char>)
    ensures
        text::trim_end(s).len() <= s.len(),
        text::trim_end(s) == s.subrange(0, text::trim_end(s).len() as int),
        text::trim_end(s).len() > 0 ==> !text::is_whitespace(text::trim_end(s).last()),
    decreases s.len(),
{
    if s.len() > 0 && text::is_whitespace(s.last()) {
        lemma_trim_end_is_prefix(s.drop_last());
        assert(s.drop_last().subrange(0, text::trim_end(s).len() as int) =~= s.subrange(
            0,
            text::trim_end(s).len() as int,
        ));
    } else {
        assert(s.subrange(0, s.len() as int) =~= s);
    }
}

/// What every name of an app rule is: nonempty, free of separators, without
/// surrounding whitespace, and in ASCII lowercase.
pub open spec fn clean_name(n: Seq<char>) -> bool {
    &&& n.len() > 0
    &&& forall|k: int| 0 <= k < n.len() ==> !is_app_separator(#[trigger] n[k])
    &&& !text::is_whitespace(n[0])
    &&& !text::is_whitespace(n.last())
    &&& text::lower_all(n) == n
}

proof fn lemma_clean_field(f: Seq<char>)
    requires
        text::trim(f).len() > 0,
        forall|k: int| 0 <= k < f.len() ==> !is_app_separator(#[trigger] f[k]),
    ensures
        clean_name(text::lower_all(text::trim(f))),
{
    let g = text::trim_start(f);
    lemma_trim_start_is_suffix(f);
    lemma_trim_end_is_prefix(g);
    let t = text::trim(f);
    let off = f.len() - g.len();
    assert forall|k: int| 0 <= k < t.len() implies !is_app_separator(#[trigger] t[k]) by {
        assert(t[k] == g[k]);
        assert(g[k] == f[off + k]);
    }
    assert(t[0] == g[0]);
    let n = text::lower_all(t);
    assert forall|k: int| 0 <= k < n.len() implies !is_app_separator(#[trigger] n[k]) by {
        assert(n[k] == text::lower(t[k]));
    }
    assert(n[0] == text::lower(t[0]));
    assert(n.last() == text::lower(t.last()));
    assert(text::lower_all(n) =~= n) by {
        assert forall|k: int| 0 <= k < n.len() implies #[trigger] text::lower_all(n)[k] == n[k] by {
            assert(n[k] == text::lower(t[k]));
        }
    }
}

/// Every name of an app rule is one clean executable name.
pub proof fn app_names_are_clean(value: Seq<char>)
    ensures
        forall|i: int| 0 <= i < app_list(value).len() ==> clean_name(#[trigger] app_list(value)[i]),
{
    lemma_fields_have_no_separator(value);
    lemma_names_of_clean_fields(split_fields(value));
}

proof fn lemma_names_of_clean_fields(fields: Seq<Seq<char>>)
    requires
        forall|i: int, k: int|
            0 <= i < fields.len() && 0 <= k < fields[i].len() ==> !is_app_separator(#[trigger] fields[i][k]),
    ensures
        forall|i: int| 0 <= i < app_names(fields).len() ==> clean_name(#[trigger] app_names(fields)[i]),
    decreases fields.len(),
{
    if fields.len() > 0 {
        let prefix = fields.drop_last();
        assert forall|i: int, k: int| 0 <= i < prefix.len() && 0 <= k < prefix[i].len() implies !is_app_separator(
            #[trigger] prefix[i][k],
        ) by {
            assert(prefix[i] == fields[i]);
        }
        lemma_names_of_clean_fields(prefix);
        let last = fields.last();
        let names = app_names(prefix);
        if text::trim(last).len() > 0 {
            assert forall|k: int| 0 <= k < last.len() implies !is_app_separator(#[trigger] last[k]) by {
                assert(last[k] == fields[fields.len() - 1][k]);
            }
            lemma_clean_field(last);
            let all = app_names(fields);
            assert(all == names.push(text::lower_all(text::trim(last))));
            assert forall|i: int| 0 <= i < all.len() implies clean_name(#[trigger] all[i]) by {
                if i < names.len() {
                    assert(all[i] == names[i]);
                }
            }
        }
    }
}

} // verus!
