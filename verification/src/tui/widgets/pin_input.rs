//! The multi-field masked PIN form: its fields and how keys change it.
use vstd::prelude::*;
use vstd::string::*;
use crate::text::{backspaced, chars_of, pop_char, push_char, string_from_chars, subvec};

verus! {

/// One PIN field: label, typed value, whether it is active, and whether it may
/// stay empty.
#[derive(Debug)]
pub struct PinInputField {
    pub label: String,
    pub value: String,
    pub active: bool,
    pub optional: bool,
}

/// The mathematical value of a [`PinInputField`].
pub struct FieldView {
    pub label: Seq<char>,
    pub value: Seq<char>,
    pub active: bool,
    pub optional: bool,
}

impl View for PinInputField {
    type V = FieldView;

    open spec fn view(&self) -> FieldView {
        FieldView { label: self.label@, value: self.value@, active: self.active, optional: self.optional }
    }
}

/// The views of the fields.
pub open spec fn field_views(s: Seq<PinInputField>) -> Seq<FieldView> {
    s.map_values(|f: PinInputField| f@)
}

/// A PIN form: its fields, the active one, an error and a title.
#[derive(Debug)]
pub struct PinInputState {
    pub fields: Vec<PinInputField>,
    pub active_field: usize,
    pub error_message: Option<String>,
    pub title: String,
}

/// The keys the form reacts to.
#[derive(Debug, Clone, Copy, PartialEq, Eq, Structural)]
pub enum PinKey {
    Char(char),
    Backspace,
    Tab,
    BackTab,
    Enter,
    Esc,
    Other,
}

/// A field after a typed key: a character appended, or a backspace.
pub open spec fn edited(s: Seq<char>, key: PinKey) -> Seq<char> {
    match key {
        PinKey::Char(c) => s.push(c),
        PinKey::Backspace => backspaced(s),
        _ => s,
    }
}

/// Applies a typed key to a text field (see [`edited`]).
pub fn edit(s: &mut String, key: PinKey)
    ensures
        final(s)@ == edited(old(s)@, key),
{
    match key {
        PinKey::Char(c) => push_char(s, c),
        PinKey::Backspace => pop_char(s),
        _ => {},
    }
}

/// What a key press leads to.
#[derive(Debug, Clone, Copy, PartialEq, Eq, Structural)]
pub enum PinInputAction {
    /// Nothing for the caller to do.
    Continue,
    /// Enter on the last field with every required field filled.
    Submit,
    /// Esc.
    Cancel,
}

/// `x - 1`, or 0.
pub open spec fn sat_dec(x: int) -> int {
    if x > 0 {
        x - 1
    } else {
        0
    }
}

/// The fields with only the one at `idx` active.
pub open spec fn activate(fs: Seq<FieldView>, idx: int) -> Seq<FieldView> {
    Seq::new(fs.len(), |i: int| FieldView { active: i == idx, ..fs[i] })
}

/// Every required field has a character.
pub open spec fn filled(fs: Seq<FieldView>) -> bool {
    forall|i: int| 0 <= i < fs.len() ==> (#[trigger] fs[i]).optional || fs[i].value.len() > 0
}

/// A printable ASCII character other than space (`char::is_ascii_graphic`).
pub open spec fn graphic(c: char) -> bool {
    '!' <= c && c <= '~'
}

/// The form after a key: the fields, active index, error, and the action.
pub open spec fn key_next(fs: Seq<FieldView>, active: int, error: Option<Seq<char>>, key: PinKey) -> (
    Seq<FieldView>,
    int,
    Option<Seq<char>>,
    PinInputAction,
) {
    let last = sat_dec(fs.len() as int);
    let next = if active + 1 < last {
        active + 1
    } else {
        last
    };
    match key {
        PinKey::Char(c) => if graphic(c) {
            (
                if 0 <= active < fs.len() {
                    fs.update(active, FieldView { value: fs[active].value.push(c), ..fs[active] })
                } else {
                    fs
                },
                active,
                None,
                PinInputAction::Continue,
            )
        } else {
            (fs, active, error, PinInputAction::Continue)
        },
        PinKey::Backspace => (
            if 0 <= active < fs.len() && fs[active].value.len() > 0 {
                fs.update(active, FieldView { value: fs[active].value.drop_last(), ..fs[active] })
            } else {
                fs
            },
            active,
            None,
            PinInputAction::Continue,
        ),
        PinKey::Tab => (activate(fs, next), next, error, PinInputAction::Continue),
        PinKey::BackTab => (activate(fs, sat_dec(active)), sat_dec(active), error, PinInputAction::Continue),
        PinKey::Enter => if active < last {
            (activate(fs, next), next, error, PinInputAction::Continue)
        } else if filled(fs) {
            (fs, active, error, PinInputAction::Submit)
        } else {
            (fs, active, Some("All fields required"@), PinInputAction::Continue)
        },
        PinKey::Esc => (fs, active, error, PinInputAction::Cancel),
        PinKey::Other => (fs, active, error, PinInputAction::Continue),
    }
}

/// The view of an optional string.
pub open spec fn opt_text(o: Option<String>) -> Option<Seq<char>> {
    match o {
        Some(s) => Some(s@),
        None => None,
    }
}

fn field_copy(f: &PinInputField) -> (g: PinInputField)
    ensures
        g@ == f@,
{
    PinInputField {
        label: f.label.clone(),
        value: f.value.clone(),
        active: f.active,
        optional: f.optional,
    }
}

impl PinInputState {
    /// A form titled `title` with one required, empty field per label; the first
    /// field is active.
    pub fn new(title: &str, labels: &[&str]) -> (s: Self)
        ensures
            s.title@ == title@,
            s.active_field == 0,
            s.error_message.is_none(),
            field_views(s.fields@) == Seq::new(
                labels@.len(),
                |i: int| FieldView { label: labels@[i]@, value: Seq::empty(), active: i == 0, optional: false },
            ),
    {
        let mut fields: Vec<PinInputField> = Vec::new();
        let mut i: usize = 0;
        while i < labels.len()
            invariant
                i <= labels@.len(),
                field_views(fields@) == Seq::new(
                    i as nat,
                    |k: int| FieldView { label: labels@[k]@, value: Seq::empty(), active: k == 0, optional: false },
                ),
            decreases labels@.len() - i,
        {
            let f = PinInputField {
                label: labels[i].to_owned(),
                value: String::new(),
                active: i == 0,
                optional: false,
            };
            let ghost before = field_views(fields@);
            let ghost fv = f@;
            assert(fv == FieldView { label: labels@[i as int]@, value: Seq::empty(), active: i == 0, optional: false });
            fields.push(f);
            assert(field_views(fields@) =~= before.push(fv));
            i = i + 1;
            assert(field_views(fields@) =~= Seq::new(
                i as nat,
                |k: int| FieldView { label: labels@[k]@, value: Seq::empty(), active: k == 0, optional: false },
            ));
        }
        PinInputState { fields, active_field: 0, error_message: None, title: title.to_owned() }
    }

    /// Every required field has a character.
    pub fn all_filled(&self) -> (b: bool)
        ensures
            b == filled(field_views(self.fields@)),
    {
        let ghost fv = field_views(self.fields@);
        let mut i: usize = 0;
        while i < self.fields.len()
            invariant
                fv == field_views(self.fields@),
                i <= self.fields@.len(),
                forall|k: int| 0 <= k < i ==> (#[trigger] fv[k]).optional || fv[k].value.len() > 0,
            decreases self.fields@.len() - i,
        {
            assert(fv[i as int] == self.fields@[i as int]@);
            if !self.fields[i].optional && self.fields[i].value.as_str().unicode_len() == 0 {
                return false;
            }
            i = i + 1;
        }
        true
    }

    /// The field values in order.
    pub fn values(&self) -> (v: Vec<String>)
        ensures
            v@.map_values(|s: String| s@) == field_views(self.fields@).map_values(|f: FieldView| f.value),
    {
        let mut v: Vec<String> = Vec::new();
        let mut i: usize = 0;
        while i < self.fields.len()
            invariant
                i <= self.fields@.len(),
                v@.map_values(|s: String| s@) == field_views(self.fields@).take(i as int).map_values(
                    |f: FieldView| f.value,
                ),
            decreases self.fields@.len() - i,
        {
            let ghost before = v@.map_values(|s: String| s@);
            let val = self.fields[i].value.clone();
            assert(val@ == field_views(self.fields@)[i as int].value);
            v.push(val);
            assert(v@.map_values(|s: String| s@) =~= before.push(field_views(self.fields@)[i as int].value));
            assert(field_views(self.fields@).take(i + 1) =~= field_views(self.fields@).take(i as int).push(
                field_views(self.fields@)[i as int],
            ));
            i = i + 1;
            assert(v@.map_values(|s: String| s@) =~= field_views(self.fields@).take(i as int).map_values(
                |f: FieldView| f.value,
            ));
        }
        assert(field_views(self.fields@).take(self.fields@.len() as int) =~= field_views(self.fields@));
        v
    }

    /// Marks the field at `idx`, where there is one, as optional.
    pub fn set_optional(&mut self, idx: usize)
        ensures
            final(self).active_field == old(self).active_field,
            field_views(final(self).fields@) == if idx < old(self).fields@.len() {
                field_views(old(self).fields@).update(
                    idx as int,
                    FieldView { optional: true, ..field_views(old(self).fields@)[idx as int] },
                )
            } else {
                field_views(old(self).fields@)
            },
            opt_text(final(self).error_message) == opt_text(old(self).error_message),
    {
        if idx < self.fields.len() {
            let mut f = field_copy(&self.fields[idx]);
            f.optional = true;
            self.fields.set(idx, f);
            assert(field_views(self.fields@) =~= field_views(old(self).fields@).update(
                idx as int,
                FieldView { optional: true, ..field_views(old(self).fields@)[idx as int] },
            ));
        }
    }

    fn set_active(&mut self, idx: usize)
        ensures
            final(self).active_field == idx,
            field_views(final(self).fields@) == activate(field_views(old(self).fields@), idx as int),
            opt_text(final(self).error_message) == opt_text(old(self).error_message),
            final(self).title@ == old(self).title@,
    {
        let ghost orig = field_views(self.fields@);
        let mut i: usize = 0;
        while i < self.fields.len()
            invariant
                i <= self.fields@.len(),
                self.fields@.len() == orig.len(),
                opt_text(self.error_message) == opt_text(old(self).error_message),
                self.title@ == old(self).title@,
                orig == field_views(old(self).fields@),
                forall|k: int| 0 <= k < i ==> #[trigger] field_views(self.fields@)[k] == (FieldView {
                    active: k == idx,
                    ..orig[k]
                }),
                forall|k: int| i <= k < orig.len() ==> #[trigger] field_views(self.fields@)[k] == orig[k],
            decreases self.fields@.len() - i,
        {
            let mut f = field_copy(&self.fields[i]);
            f.active = i == idx;
            let ghost before = field_views(self.fields@);
            assert(before[i as int] == orig[i as int]);
            assert(before[i as int] == self.fields@[i as int]@);
            let ghost fv = f@;
            self.fields.set(i, f);
            assert(field_views(self.fields@) =~= before.update(i as int, fv));
            assert(fv == (FieldView { active: i == idx, ..orig[i as int] }));
            assert(field_views(self.fields@)[i as int] == (FieldView { active: i == idx, ..orig[i as int] }));
            i = i + 1;
        }
        assert(field_views(self.fields@) =~= activate(orig, idx as int));
        self.active_field = idx;
    }

    fn type_char(&mut self, c: char)
        ensures
            !graphic(c) ==> field_views(final(self).fields@) == field_views(old(self).fields@)
                && opt_text(final(self).error_message) == opt_text(old(self).error_message),
            graphic(c) ==> final(self).error_message.is_none(),
            graphic(c) ==> field_views(final(self).fields@) == (if old(self).active_field < old(self).fields@.len() {
                field_views(old(self).fields@).update(
                    old(self).active_field as int,
                    FieldView {
                        value: field_views(old(self).fields@)[old(self).active_field as int].value.push(c),
                        ..field_views(old(self).fields@)[old(self).active_field as int]
                    },
                )
            } else {
                field_views(old(self).fields@)
            }),
            final(self).active_field == old(self).active_field,
            final(self).title@ == old(self).title@,
    {
        if !('!' <= c && c <= '~') {
            return;
        }
        let i = self.active_field;
        if i < self.fields.len() {
            let mut f = field_copy(&self.fields[i]);
            let mut v = chars_of(f.value.as_str());
            v.push(c);
            f.value = string_from_chars(&v);
            self.fields.set(i, f);
            assert(field_views(self.fields@) =~= field_views(old(self).fields@).update(
                i as int,
                FieldView {
                    value: field_views(old(self).fields@)[i as int].value.push(c),
                    ..field_views(old(self).fields@)[i as int]
                },
            ));
        }
        self.error_message = None;
    }

    /// Takes a key press (see [`key_next`]).
    pub fn handle_key(&mut self, key: PinKey) -> (a: PinInputAction)
        ensures
            field_views(final(self).fields@) == key_next(
                field_views(old(self).fields@),
                old(self).active_field as int,
                opt_text(old(self).error_message),
                key,
            ).0,
            final(self).active_field as int == key_next(
                field_views(old(self).fields@),
                old(self).active_field as int,
                opt_text(old(self).error_message),
                key,
            ).1,
            opt_text(final(self).error_message) == key_next(
                field_views(old(self).fields@),
                old(self).active_field as int,
                opt_text(old(self).error_message),
                key,
            ).2,
            a == key_next(
                field_views(old(self).fields@),
                old(self).active_field as int,
                opt_text(old(self).error_message),
                key,
            ).3,
            final(self).title@ == old(self).title@,
    {
        let n = self.fields.len();
        let last: usize = if n > 0 {
            n - 1
        } else {
            0
        };
        let next: usize = if self.active_field < n && self.active_field + 1 < last {
            self.active_field + 1
        } else {
            last
        };
        match key {
            PinKey::Char(c) => {
                self.type_char(c);
                PinInputAction::Continue
            },
            PinKey::Backspace => {
                let i = self.active_field;
                if i < n {
                    let v = chars_of(self.fields[i].value.as_str());
                    if v.len() > 0 {
                        let mut f = field_copy(&self.fields[i]);
                        let w = subvec(&v, 0, v.len() - 1);
                        f.value = string_from_chars(&w);
                        self.fields.set(i, f);
                        assert(field_views(self.fields@) =~= field_views(old(self).fields@).update(
                            i as int,
                            FieldView {
                                value: field_views(old(self).fields@)[i as int].value.drop_last(),
                                ..field_views(old(self).fields@)[i as int]
                            },
                        ));
                    }
                }
                self.error_message = None;
                PinInputAction::Continue
            },
            PinKey::Tab => {
                self.set_active(next);
                PinInputAction::Continue
            },
            PinKey::BackTab => {
                let prev: usize = if self.active_field > 0 {
                    self.active_field - 1
                } else {
                    0
                };
                self.set_active(prev);
                PinInputAction::Continue
            },
            PinKey::Enter => {
                if self.active_field < last {
                    self.set_active(next);
                    PinInputAction::Continue
                } else if self.all_filled() {
                    PinInputAction::Submit
                } else {
                    self.error_message = Some(String::from_str("All fields required"));
                    PinInputAction::Continue
                }
            },
            PinKey::Esc => PinInputAction::Cancel,
            PinKey::Other => PinInputAction::Continue,
        }
    }
}

/// The PIN form widget's action (Escape).
#[derive(Debug, Clone, Copy, PartialEq, Eq, Structural)]
pub enum PinWidgetAction {
    Cancel,
}

/// A titled form of masked PIN fields; its parent reads `cancelled` to dismiss it.
#[derive(Debug)]
pub struct PinInputWidget {
    pub field_labels: Vec<String>,
    pub title: String,
    /// The message shown under the fields after a failed check.
    pub error_message: Option<String>,
    pub cancelled: bool,
}

/// The views of a list of strings.
pub open spec fn label_views(v: Seq<String>) -> Seq<Seq<char>> {
    v.map_values(|s: String| s@)
}

impl PinInputWidget {
    /// The form with one field per label, no error, not cancelled.
    pub fn new(title: &str, field_labels: &[&str]) -> (w: Self)
        ensures
            w.title@ == title@,
            label_views(w.field_labels@) == Seq::new(field_labels@.len(), |i: int| field_labels@[i]@),
            w.error_message is None,
            !w.cancelled,
    {
        let mut labels: Vec<String> = Vec::new();
        let mut i: usize = 0;
        while i < field_labels.len()
            invariant
                i <= field_labels@.len(),
                label_views(labels@) == Seq::new(i as nat, |k: int| field_labels@[k]@),
            decreases field_labels@.len() - i,
        {
            let l = field_labels[i].to_owned();
            let ghost before = label_views(labels@);
            labels.push(l);
            assert(label_views(labels@) =~= before.push(field_labels@[i as int]@));
            i = i + 1;
            assert(label_views(labels@) =~= Seq::new(i as nat, |k: int| field_labels@[k]@));
        }
        PinInputWidget {
            field_labels: labels,
            title: title.to_owned(),
            error_message: None,
            cancelled: false,
        }
    }

    /// The error line, `Error: {message}`, where there is a message.
    pub fn error_line(&self) -> (l: Option<String>)
        ensures
            match self.error_message {
                Some(m) => l matches Some(x) && x@ == "Error: "@ + m@,
                None => l is None,
            },
    {
        match &self.error_message {
            Some(m) => {
                let mut s = String::from_str("Error: ");
                s.append(m.as_str());
                Some(s)
            },
            None => None,
        }
    }

    /// Escape marks the form cancelled; the screen then leaves.
    pub fn on_action(&mut self, action: PinWidgetAction)
        ensures
            final(self).cancelled,
            final(self).title@ == old(self).title@,
            label_views(final(self).field_labels@) == label_views(old(self).field_labels@),
    {
        match action {
            PinWidgetAction::Cancel => {
                self.cancelled = true;
            },
        }
    }
}

} // verus!
