//! PIV screens: the slot list, a slot's certificate details, and the forms that
//! take a 3DES management key in hex before a deletion or a key change.
use vstd::prelude::*;
use vstd::string::*;
use crate::model::piv::{slot_views, PivState, SlotInfo, SlotInfoView};
use crate::model::piv_delete::{slot_named, PivSlot, PIV_DEFAULT_MGMT_KEY_3DES};
use crate::model::pin_operations::string_views;
use crate::model::{Version, YubiKeyState};
use crate::text::{backspaced, decimal, pop_char, push_char, push_decimal};
use crate::tui::keys::push_line;
use crate::tui::pin::{join_strings, joined};
use crate::tui::widgets::pin_input::PinKey;
use crate::tui::widgets::popup::ConfirmScreen;

verus! {

/// The slot ids of the list's rows, in order.
pub open spec fn piv_slot_id(i: int) -> Seq<char> {
    if i == 0 {
        "9a"@
    } else if i == 1 {
        "9c"@
    } else if i == 2 {
        "9d"@
    } else {
        "9e"@
    }
}

/// The same ids in upper case.
pub open spec fn piv_slot_id_upper(i: int) -> Seq<char> {
    if i == 0 {
        "9A"@
    } else if i == 1 {
        "9C"@
    } else if i == 2 {
        "9D"@
    } else {
        "9E"@
    }
}

fn piv_slot_id_str(i: usize) -> (s: &'static str)
    ensures
        s@ == piv_slot_id(i as int),
{
    if i == 0 {
        "9a"
    } else if i == 1 {
        "9c"
    } else if i == 2 {
        "9d"
    } else {
        "9e"
    }
}

fn piv_slot_id_upper_str(i: usize) -> (s: &'static str)
    ensures
        s@ == piv_slot_id_upper(i as int),
{
    if i == 0 {
        "9A"
    } else if i == 1 {
        "9C"
    } else if i == 2 {
        "9D"
    } else {
        "9E"
    }
}

/// The first listed slot with this id.
pub open spec fn find_slot(slots: Seq<SlotInfoView>, id: Seq<char>) -> Option<SlotInfoView>
    decreases slots.len(),
{
    if slots.len() == 0 {
        None
    } else if slots[0].slot == id {
        Some(slots[0])
    } else {
        find_slot(slots.drop_first(), id)
    }
}

/// The slots that hold something, as the card reports them (none without PIV data).
pub open spec fn listed_slots(yk: Option<YubiKeyState>) -> Seq<SlotInfoView> {
    match yk {
        Some(y) => match y.piv {
            Some(p) => slot_views(p.slots@),
            None => Seq::empty(),
        },
        None => Seq::empty(),
    }
}

pub(crate) fn find_slot_index(slots: &Vec<SlotInfo>, id: &str) -> (r: Option<usize>)
    ensures
        match r {
            Some(i) => i < slots@.len() && find_slot(slot_views(slots@), id@) == Some(slots@[i as int]@),
            None => find_slot(slot_views(slots@), id@) is None,
        },
{
    let mut i: usize = 0;
    assert(slot_views(slots@).subrange(0, slots@.len() as int) =~= slot_views(slots@));
    while i < slots.len()
        invariant
            i <= slots@.len(),
            find_slot(slot_views(slots@), id@) == find_slot(slot_views(slots@).subrange(i as int, slots@.len() as int), id@),
        decreases slots@.len() - i,
    {
        let ghost rest = slot_views(slots@).subrange(i as int, slots@.len() as int);
        assert(rest[0] == slots@[i as int]@);
        assert(rest.drop_first() =~= slot_views(slots@).subrange(i as int + 1, slots@.len() as int));
        if slots[i].slot == id.to_string() {
            return Some(i);
        }
        i = i + 1;
    }
    assert(slot_views(slots@).subrange(i as int, slots@.len() as int).len() == 0);
    None
}

/// A detail line where the value is known.
pub open spec fn opt_line(label: Seq<char>, v: Option<Seq<char>>) -> Seq<Seq<char>> {
    match v {
        Some(x) => seq![label + x],
        None => Seq::empty(),
    }
}

/// The detail lines of an occupied slot; a certificate with no parsed field says so.
pub open spec fn slot_detail_lines(id_upper: Seq<char>, info: SlotInfoView) -> Seq<Seq<char>> {
    let l = seq!["Slot:      "@ + id_upper] + opt_line("Subject:   "@, info.subject) + opt_line(
        "Issuer:    "@,
        info.issuer,
    ) + opt_line("Algorithm: "@, info.algorithm) + opt_line("Valid:     "@, info.validity);
    if l.len() == 1 {
        l.push("Certificate present (no parsed details available)."@)
    } else {
        l
    }
}

/// What viewing row `i` shows: the slot's details one per line, or that it is empty.
pub open spec fn slot_view_body(i: int, slots: Seq<SlotInfoView>) -> Seq<char> {
    match find_slot(slots, piv_slot_id(i)) {
        None => "Slot "@ + piv_slot_id(i) + " is empty — no certificate present."@,
        Some(info) => joined(slot_detail_lines(piv_slot_id_upper(i), info), "\n"@),
    }
}

fn push_opt_line(lines: &mut Vec<String>, label: &str, v: &Option<String>)
    ensures
        string_views(final(lines)@) == string_views(old(lines)@) + opt_line(
            label@,
            match v {
                Some(x) => Some(x@),
                None => None,
            },
        ),
{
    match v {
        Some(x) => {
            let mut l = String::from_str(label);
            l.append(x.as_str());
            push_line(lines, l);
        },
        None => {
            assert(string_views(lines@) =~= string_views(old(lines)@) + Seq::<Seq<char>>::empty());
        },
    }
}

fn slot_detail_lines_of(id_upper: &str, info: &SlotInfo) -> (r: Vec<String>)
    ensures
        string_views(r@) == slot_detail_lines(id_upper@, info@),
{
    let mut lines: Vec<String> = Vec::new();
    let mut first = String::from_str("Slot:      ");
    first.append(id_upper);
    push_line(&mut lines, first);
    push_opt_line(&mut lines, "Subject:   ", &info.subject);
    push_opt_line(&mut lines, "Issuer:    ", &info.issuer);
    push_opt_line(&mut lines, "Algorithm: ", &info.algorithm);
    push_opt_line(&mut lines, "Valid:     ", &info.validity);
    if lines.len() == 1 {
        push_line(&mut lines, String::from_str("Certificate present (no parsed details available)."));
    }
    lines
}

/// The PIV list's cursor.
#[derive(Debug, Clone, Copy, PartialEq, Eq, Structural)]
pub struct PivTuiState {
    pub scroll_offset: usize,
    /// The selected row: 0 to 3 for 9a, 9c, 9d, 9e.
    pub selected_slot: usize,
}

impl Default for PivTuiState {
    /// At the first row.
    fn default() -> (s: Self)
        ensures
            s == (PivTuiState { scroll_offset: 0, selected_slot: 0 }),
    {
        PivTuiState { scroll_offset: 0, selected_slot: 0 }
    }
}

/// The PIV list's key bindings.
#[derive(Debug, Clone, Copy, PartialEq, Eq, Structural)]
pub enum PivAction {
    Back,
    Up,
    Down,
    ViewSlot,
    DeleteSlot,
    Refresh,
    ChangeMgmtKey,
    Help,
}

/// Where the PIV list sends the user.
#[derive(Debug)]
pub enum PivNav {
    Stay,
    Back,
    Help,
    /// Read the card again and rebuild the list.
    Refresh,
    Popup { title: String, body: String },
    /// Ask for the management key before deleting the slot.
    MgmtKeyForDelete(MgmtKeyThenDeleteScreen),
    /// Start changing the management key.
    ChangeMgmtKey(ChangeMgmtKeyScreen),
}

/// The PIV slot list.
#[derive(Debug)]
pub struct PivScreen {
    pub yubikey_state: Option<YubiKeyState>,
    /// The management key is still the factory default (as far as known).
    pub mgmt_key_is_default: bool,
    pub state: PivTuiState,
}

/// The firmware a deletion is judged by: the key's, or 5.0.0 without a key.
pub open spec fn firmware_of(yk: Option<YubiKeyState>) -> Version {
    match yk {
        Some(y) => y.info.version,
        None => Version { major: 5, minor: 0, patch: 0 },
    }
}

impl PivScreen {
    /// The cursor is on one of the four rows.
    pub open spec fn wf(&self) -> bool {
        self.state.selected_slot < 4
    }

    /// The list for a key, at its first row.
    pub fn new(yubikey_state: Option<YubiKeyState>, mgmt_key_is_default: bool) -> (s: Self)
        ensures
            s.wf(),
            s.yubikey_state == yubikey_state,
            s.mgmt_key_is_default == mgmt_key_is_default,
            s.state == (PivTuiState { scroll_offset: 0, selected_slot: 0 }),
    {
        PivScreen { yubikey_state, mgmt_key_is_default, state: PivTuiState::default() }
    }

    fn lookup(&self, id: &str) -> (r: Option<&SlotInfo>)
        ensures
            match r {
                Some(s) => find_slot(listed_slots(self.yubikey_state), id@) == Some(s@),
                None => find_slot(listed_slots(self.yubikey_state), id@) is None,
            },
    {
        match &self.yubikey_state {
            Some(y) => match &y.piv {
                Some(p) => match find_slot_index(&p.slots, id) {
                    Some(i) => Some(&p.slots[i]),
                    None => None,
                },
                None => None,
            },
            None => None,
        }
    }

    /// An action on the list: the cursor moves over the four rows; view shows the
    /// selected slot's details; delete asks for the management key where the slot
    /// holds something, else says it is empty; the key change starts from whether
    /// the key is the default.
    pub fn on_action(&mut self, action: PivAction) -> (nav: PivNav)
        requires
            old(self).wf(),
        ensures
            final(self).wf(),
            final(self).yubikey_state == old(self).yubikey_state,
            final(self).mgmt_key_is_default == old(self).mgmt_key_is_default,
            final(self).state.scroll_offset == old(self).state.scroll_offset,
            final(self).state.selected_slot == (match action {
                PivAction::Up => if old(self).state.selected_slot > 0 {
                    old(self).state.selected_slot - 1
                } else {
                    old(self).state.selected_slot as int
                },
                PivAction::Down => if old(self).state.selected_slot + 1 < 4 {
                    old(self).state.selected_slot + 1
                } else {
                    old(self).state.selected_slot as int
                },
                _ => old(self).state.selected_slot as int,
            }),
            ({
                let sel = old(self).state.selected_slot as int;
                let slots = listed_slots(old(self).yubikey_state);
                match action {
                    PivAction::Back => nav is Back,
                    PivAction::Help => nav is Help,
                    PivAction::Refresh => nav is Refresh,
                    PivAction::ViewSlot => nav matches PivNav::Popup { title, body } && title@ == "PIV Slot "@
                        + piv_slot_id_upper(sel) + " Certificate"@ && body@ == slot_view_body(sel, slots),
                    PivAction::DeleteSlot => if find_slot(slots, piv_slot_id(sel)) is None {
                        nav matches PivNav::Popup { title, body } && title@ == "Empty Slot"@
                            && body@ == "No certificate or key to delete in this slot."@
                    } else {
                        nav matches PivNav::MgmtKeyForDelete(m) && slot_named(piv_slot_id(sel)) == Some(m.slot)
                            && m.firmware == firmware_of(old(self).yubikey_state) && m.input@.len() == 0
                            && m.error is None
                    },
                    PivAction::ChangeMgmtKey => nav matches PivNav::ChangeMgmtKey(c) && c.is_default
                        == old(self).mgmt_key_is_default && c.input@.len() == 0 && c.error is None,
                    _ => nav is Stay,
                }
            }),
    {
        let sel = self.state.selected_slot;
        match action {
            PivAction::Back => PivNav::Back,
            PivAction::Help => PivNav::Help,
            PivAction::Refresh => PivNav::Refresh,
            PivAction::Up => {
                if sel > 0 {
                    self.state.selected_slot = sel - 1;
                }
                PivNav::Stay
            },
            PivAction::Down => {
                if sel + 1 < 4 {
                    self.state.selected_slot = sel + 1;
                }
                PivNav::Stay
            },
            PivAction::ViewSlot => {
                let id = piv_slot_id_str(sel);
                let upper = piv_slot_id_upper_str(sel);
                let body = match self.lookup(id) {
                    None => {
                        let mut b = String::from_str("Slot ");
                        b.append(id);
                        b.append(" is empty — no certificate present.");
                        b
                    },
                    Some(info) => {
                        let lines = slot_detail_lines_of(upper, info);
                        join_strings(&lines, "\n")
                    },
                };
                let mut title = String::from_str("PIV Slot ");
                title.append(upper);
                title.append(" Certificate");
                PivNav::Popup { title, body }
            },
            PivAction::DeleteSlot => {
                let id = piv_slot_id_str(sel);
                match self.lookup(id) {
                    None => PivNav::Popup {
                        title: String::from_str("Empty Slot"),
                        body: String::from_str("No certificate or key to delete in this slot."),
                    },
                    Some(_) => {
                        match PivSlot::from_slot_str(id) {
                            Some(slot) => {
                                let firmware = match &self.yubikey_state {
                                    Some(y) => y.info.version,
                                    None => Version { major: 5, minor: 0, patch: 0 },
                                };
                                PivNav::MgmtKeyForDelete(MgmtKeyThenDeleteScreen::new(slot, firmware))
                            },
                            None => PivNav::Stay,
                        }
                    },
                }
            },
            PivAction::ChangeMgmtKey => PivNav::ChangeMgmtKey(ChangeMgmtKeyScreen::new(self.mgmt_key_is_default)),
        }
    }
}

/// An ASCII hexadecimal digit (`char::is_ascii_hexdigit`).
pub open spec fn is_hex_char(c: char) -> bool {
    ('0' <= c && c <= '9') || ('a' <= c && c <= 'f') || ('A' <= c && c <= 'F')
}

/// The value of a byte read as a hex digit, 0 for any other byte.
pub open spec fn nibble(b: u8) -> u8 {
    if 48 <= b <= 57 {
        (b - 48) as u8
    } else if 97 <= b <= 102 {
        (b - 87) as u8
    } else if 65 <= b <= 70 {
        (b - 55) as u8
    } else {
        0
    }
}

/// The 24 key bytes of 48 hex bytes, two digits per byte.
pub open spec fn key_of_hex(b: Seq<u8>) -> Seq<u8> {
    Seq::new(24, |i: int| (nibble(b[2 * i]) * 16 + nibble(b[2 * i + 1])) as u8)
}

/// The hex field after a key: a hex digit is taken while there are fewer than
/// 48 bytes, backspace removes one, other keys change nothing.
pub open spec fn hex_edited(s: Seq<char>, key: PinKey) -> Seq<char> {
    match key {
        PinKey::Char(c) => if is_hex_char(c) && vstd::utf8::encode_utf8(s).len() < 48 {
            s.push(c)
        } else {
            s
        },
        PinKey::Backspace => backspaced(s),
        _ => s,
    }
}

/// A well-kept hex field: at most 48 characters, all hex digits.
pub open spec fn hex_field(s: Seq<char>) -> bool {
    s.len() <= 48 && forall|i: int| 0 <= i < s.len() ==> is_hex_char(#[trigger] s[i])
}

/// Typing into a hex field keeps it a hex field: only hex digits get in, and
/// never more than 48 of them.
pub proof fn lemma_hex_field_stays_hex(s: Seq<char>, key: PinKey)
    requires
        hex_field(s),
    ensures
        hex_field(hex_edited(s, key)),
{
    assert(vstd::utf8::is_ascii_chars(s));
    vstd::utf8::is_ascii_chars_encode_utf8(s);
    let t = hex_edited(s, key);
    assert forall|i: int| 0 <= i < t.len() implies is_hex_char(#[trigger] t[i]) by {
        if key is Backspace && s.len() > 0 {
            assert(t[i] == s[i]);
        }
    }
}

/// A field of 48 hex digits gives the 24 bytes its digit pairs stand for.
pub proof fn lemma_full_hex_field_key(s: Seq<char>)
    requires
        hex_field(s),
        s.len() == 48,
    ensures
        hex_field_key(s) == Some(key_of_hex(vstd::utf8::encode_utf8(s))),
        forall|i: int| 0 <= i < 48 ==> vstd::utf8::encode_utf8(s)[i] == #[trigger] s[i] as u8,
{
    assert(vstd::utf8::is_ascii_chars(s));
    vstd::utf8::is_ascii_chars_encode_utf8(s);
}

fn is_hex_char_exec(c: char) -> (b: bool)
    ensures
        b == is_hex_char(c),
{
    ('0' <= c && c <= '9') || ('a' <= c && c <= 'f') || ('A' <= c && c <= 'F')
}

fn edit_hex(s: &mut String, key: PinKey)
    ensures
        final(s)@ == hex_edited(old(s)@, key),
{
    match key {
        PinKey::Char(c) => {
            if is_hex_char_exec(c) && s.as_str().as_bytes().len() < 48 {
                push_char(s, c);
            }
        },
        PinKey::Backspace => pop_char(s),
        _ => {},
    }
}

fn nibble_exec(b: u8) -> (n: u8)
    ensures
        n == nibble(b),
        n < 16,
{
    if 48 <= b && b <= 57 {
        b - 48
    } else if 97 <= b && b <= 102 {
        b - 87
    } else if 65 <= b && b <= 70 {
        b - 55
    } else {
        0
    }
}

/// The 24-byte key that 48 hex bytes stand for (see [`key_of_hex`]).
pub fn parse_hex_key(b: &[u8]) -> (k: [u8; 24])
    requires
        b@.len() == 48,
    ensures
        k@ == key_of_hex(b@),
{
    let mut k: [u8; 24] = [0u8; 24];
    let mut i: usize = 0;
    while i < 24
        invariant
            i <= 24,
            b@.len() == 48,
            k@.len() == 24,
            forall|j: int| 0 <= j < i ==> k@[j] == (nibble(b@[2 * j]) * 16 + nibble(b@[2 * j + 1])) as u8,
        decreases 24 - i,
    {
        let hi = nibble_exec(b[2 * i]);
        let lo = nibble_exec(b[2 * i + 1]);
        k[i] = hi * 16 + lo;
        i = i + 1;
    }
    assert(k@ =~= key_of_hex(b@));
    k
}

/// The key a hex field gives: the default key when empty, the parsed bytes at
/// 48 bytes, else nothing (the field has the wrong length).
pub open spec fn hex_field_key(s: Seq<char>) -> Option<Seq<u8>> {
    let b = vstd::utf8::encode_utf8(s);
    if s.len() == 0 {
        Some(PIV_DEFAULT_MGMT_KEY_3DES@)
    } else if b.len() == 48 {
        Some(key_of_hex(b))
    } else {
        None
    }
}

/// What a management key form asks for.
#[derive(Debug)]
pub enum MgmtKeyNav {
    Stay,
    Back,
    /// Confirm the deletion with this key.
    ConfirmDelete(DeletePivConfirmScreen),
    /// Go on to the new key with the current one.
    NewKey(NewMgmtKeyScreen),
    /// Change the key from `current` to `new`.
    ChangeKey { current: [u8; 24], new: [u8; 24] },
    /// Close the forms and show a message.
    Popup { title: String, body: String },
}

/// The form that takes the management key before a slot is deleted.
#[derive(Debug)]
pub struct MgmtKeyThenDeleteScreen {
    pub slot: PivSlot,
    pub firmware: Version,
    pub input: String,
    pub error: Option<String>,
}

impl MgmtKeyThenDeleteScreen {
    /// An empty form for a slot on a key with this firmware.
    pub fn new(slot: PivSlot, firmware: Version) -> (s: Self)
        ensures
            s.slot == slot,
            s.firmware == firmware,
            s.input@.len() == 0,
            s.error is None,
    {
        MgmtKeyThenDeleteScreen { slot, firmware, input: String::new(), error: None }
    }

    /// Enter: the key of the field (the default key when empty) goes on to the
    /// confirmation; a field of the wrong length is refused with a message.
    pub fn next(&mut self) -> (nav: MgmtKeyNav)
        ensures
            final(self).slot == old(self).slot && final(self).firmware == old(self).firmware,
            final(self).input@ == old(self).input@,
            match hex_field_key(old(self).input@) {
                Some(k) => final(self).error is None && (nav matches MgmtKeyNav::ConfirmDelete(d)
                    && d.slot == old(self).slot && d.key@ == k && d.firmware == old(self).firmware
                    && d.inner.message@ == delete_piv_body(old(self).slot, old(self).firmware)
                    && d.inner.title@ == "Delete PIV Slot"@ && d.inner.destructive),
                None => nav is Stay && (final(self).error matches Some(e) && e@
                    == "Management key must be 48 hex characters (24 bytes). Got "@ + decimal(
                    vstd::utf8::encode_utf8(old(self).input@).len(),
                ) + " chars."@),
            },
    {
        let n = self.input.as_str().as_bytes().len();
        if self.input.as_str().unicode_len() == 0 {
            self.error = None;
            MgmtKeyNav::ConfirmDelete(DeletePivConfirmScreen::new(self.slot, PIV_DEFAULT_MGMT_KEY_3DES, self.firmware))
        } else if n != 48 {
            let mut e = String::from_str("Management key must be 48 hex characters (24 bytes). Got ");
            push_decimal(&mut e, n as u64);
            e.append(" chars.");
            self.error = Some(e);
            MgmtKeyNav::Stay
        } else {
            let key = parse_hex_key(self.input.as_str().as_bytes());
            self.error = None;
            MgmtKeyNav::ConfirmDelete(DeletePivConfirmScreen::new(self.slot, key, self.firmware))
        }
    }

    /// Edits the hex field (see [`hex_edited`]); enter goes on; escape closes.
    pub fn on_key(&mut self, key: PinKey) -> (nav: MgmtKeyNav)
        ensures
            final(self).slot == old(self).slot && final(self).firmware == old(self).firmware,
            match key {
                PinKey::Esc => nav is Back && final(self).input@ == old(self).input@,
                PinKey::Enter => final(self).input@ == old(self).input@,
                _ => nav is Stay && final(self).input@ == hex_edited(old(self).input@, key)
                    && final(self).error == old(self).error,
            },
    {
        match key {
            PinKey::Esc => MgmtKeyNav::Back,
            PinKey::Enter => self.next(),
            _ => {
                edit_hex(&mut self.input, key);
                MgmtKeyNav::Stay
            },
        }
    }
}

/// Whether the firmware can delete a slot's key too (5.7 and later).
pub open spec fn can_delete_key(f: Version) -> bool {
    f.major > 5 || (f.major == 5 && f.minor >= 7)
}

/// The question before a PIV slot is deleted, with what the firmware allows.
pub open spec fn delete_piv_body(slot: PivSlot, f: Version) -> Seq<char> {
    "Permanently delete contents of PIV slot "@ + slot.name() + "?\n\n"@ + (if can_delete_key(f) {
        "Both certificate and key will be deleted."@
    } else {
        "Certificate will be deleted.\nKey material cannot be removed on firmware "@ + f.text()
            + " (requires 5.7+)."@
    }) + "\n\nThis cannot be undone."@
}

/// The confirmation before a PIV slot is deleted.
#[derive(Debug)]
pub struct DeletePivConfirmScreen {
    pub slot: PivSlot,
    pub key: [u8; 24],
    pub firmware: Version,
    /// The destructive confirmation titled "Delete PIV Slot".
    pub inner: ConfirmScreen,
}

impl DeletePivConfirmScreen {
    /// The confirmation for a slot, with the management key and the firmware.
    pub fn new(slot: PivSlot, key: [u8; 24], firmware: Version) -> (s: Self)
        ensures
            s.slot == slot && s.key@ == key@ && s.firmware == firmware,
            s.inner.title@ == "Delete PIV Slot"@,
            s.inner.message@ == delete_piv_body(slot, firmware),
            s.inner.destructive,
            !s.inner.confirmed,
    {
        let mut body = String::from_str("Permanently delete contents of PIV slot ");
        body.append(slot.display_name());
        body.append("?\n\n");
        if firmware.major > 5 || (firmware.major == 5 && firmware.minor >= 7) {
            body.append("Both certificate and key will be deleted.");
        } else {
            body.append("Certificate will be deleted.\nKey material cannot be removed on firmware ");
            let v = firmware.to_string();
            body.append(v.as_str());
            body.append(" (requires 5.7+).");
        }
        body.append("\n\nThis cannot be undone.");
        let inner = ConfirmScreen::new(String::from_str("Delete PIV Slot"), body, true);
        DeletePivConfirmScreen { slot, key, firmware, inner }
    }

    /// The message once the deletion has run: its success message, or the error.
    pub fn outcome(&self, result: Result<String, String>) -> (nav: MgmtKeyNav)
        ensures
            match result {
                Ok(m) => nav matches MgmtKeyNav::Popup { title, body } && title@ == "Success"@ && body@ == m@,
                Err(e) => nav matches MgmtKeyNav::Popup { title, body } && title@ == "Error"@
                    && body@ == "Delete failed: "@ + e@,
            },
    {
        match result {
            Ok(m) => MgmtKeyNav::Popup { title: String::from_str("Success"), body: m },
            Err(e) => {
                let mut body = String::from_str("Delete failed: ");
                body.append(e.as_str());
                MgmtKeyNav::Popup { title: String::from_str("Error"), body }
            },
        }
    }
}

/// The first form of the key change: the current management key.
#[derive(Debug)]
pub struct ChangeMgmtKeyScreen {
    pub is_default: bool,
    pub input: String,
    pub error: Option<String>,
}

impl ChangeMgmtKeyScreen {
    /// An empty form; `is_default` tells whether the key is known to be the default.
    pub fn new(is_default: bool) -> (s: Self)
        ensures
            s.is_default == is_default,
            s.input@.len() == 0,
            s.error is None,
    {
        ChangeMgmtKeyScreen { is_default, input: String::new(), error: None }
    }

    /// Enter: the key of the field (the default key when empty) goes on to the
    /// new key; a field of the wrong length is refused with a message.
    pub fn next(&mut self) -> (nav: MgmtKeyNav)
        ensures
            final(self).is_default == old(self).is_default,
            final(self).input@ == old(self).input@,
            match hex_field_key(old(self).input@) {
                Some(k) => final(self).error is None && (nav matches MgmtKeyNav::NewKey(n) && n.current_key@ == k
                    && n.input@.len() == 0 && n.error is None),
                None => nav is Stay && (final(self).error matches Some(e) && e@
                    == "Key must be 48 hex characters (24 bytes). Got "@ + decimal(
                    vstd::utf8::encode_utf8(old(self).input@).len(),
                ) + "."@),
            },
    {
        let n = self.input.as_str().as_bytes().len();
        if self.input.as_str().unicode_len() == 0 {
            self.error = None;
            MgmtKeyNav::NewKey(NewMgmtKeyScreen::new(PIV_DEFAULT_MGMT_KEY_3DES))
        } else if n != 48 {
            let mut e = String::from_str("Key must be 48 hex characters (24 bytes). Got ");
            push_decimal(&mut e, n as u64);
            e.append(".");
            self.error = Some(e);
            MgmtKeyNav::Stay
        } else {
            let key = parse_hex_key(self.input.as_str().as_bytes());
            self.error = None;
            MgmtKeyNav::NewKey(NewMgmtKeyScreen::new(key))
        }
    }

    /// Edits the hex field (see [`hex_edited`]); enter goes on; escape closes.
    pub fn on_key(&mut self, key: PinKey) -> (nav: MgmtKeyNav)
        ensures
            final(self).is_default == old(self).is_default,
            match key {
                PinKey::Esc => nav is Back && final(self).input@ == old(self).input@,
                PinKey::Enter => final(self).input@ == old(self).input@,
                _ => nav is Stay && final(self).input@ == hex_edited(old(self).input@, key)
                    && final(self).error == old(self).error,
            },
    {
        match key {
            PinKey::Esc => MgmtKeyNav::Back,
            PinKey::Enter => self.next(),
            _ => {
                edit_hex(&mut self.input, key);
                MgmtKeyNav::Stay
            },
        }
    }
}

/// The second form of the key change: the new management key.
#[derive(Debug)]
pub struct NewMgmtKeyScreen {
    pub current_key: [u8; 24],
    pub input: String,
    pub error: Option<String>,
}

impl NewMgmtKeyScreen {
    /// An empty form that replaces `current_key`.
    pub fn new(current_key: [u8; 24]) -> (s: Self)
        ensures
            s.current_key@ == current_key@,
            s.input@.len() == 0,
            s.error is None,
    {
        NewMgmtKeyScreen { current_key, input: String::new(), error: None }
    }

    /// Enter: a field of exactly 48 bytes asks for the change; any other is
    /// refused with a message (the default is not offered here).
    pub fn next(&mut self) -> (nav: MgmtKeyNav)
        ensures
            final(self).current_key@ == old(self).current_key@,
            final(self).input@ == old(self).input@,
            if vstd::utf8::encode_utf8(old(self).input@).len() == 48 {
                nav matches MgmtKeyNav::ChangeKey { current, new } && current@ == old(self).current_key@
                    && new@ == key_of_hex(vstd::utf8::encode_utf8(old(self).input@))
                    && final(self).error == old(self).error
            } else {
                nav is Stay && (final(self).error matches Some(e) && e@
                    == "New key must be exactly 48 hex characters (24 bytes). Got "@ + decimal(
                    vstd::utf8::encode_utf8(old(self).input@).len(),
                ) + "."@)
            },
    {
        let n = self.input.as_str().as_bytes().len();
        if n != 48 {
            let mut e = String::from_str("New key must be exactly 48 hex characters (24 bytes). Got ");
            push_decimal(&mut e, n as u64);
            e.append(".");
            self.error = Some(e);
            return MgmtKeyNav::Stay;
        }
        let new_key = parse_hex_key(self.input.as_str().as_bytes());
        MgmtKeyNav::ChangeKey { current: self.current_key, new: new_key }
    }

    /// Edits the hex field (see [`hex_edited`]); enter goes on; escape closes.
    pub fn on_key(&mut self, key: PinKey) -> (nav: MgmtKeyNav)
        ensures
            final(self).current_key@ == old(self).current_key@,
            match key {
                PinKey::Esc => nav is Back && final(self).input@ == old(self).input@,
                PinKey::Enter => final(self).input@ == old(self).input@,
                _ => nav is Stay && final(self).input@ == hex_edited(old(self).input@, key)
                    && final(self).error == old(self).error,
            },
    {
        match key {
            PinKey::Esc => MgmtKeyNav::Back,
            PinKey::Enter => self.next(),
            _ => {
                edit_hex(&mut self.input, key);
                MgmtKeyNav::Stay
            },
        }
    }

    /// The message once the change has run.
    pub fn outcome(&self, result: Result<(), String>) -> (nav: MgmtKeyNav)
        ensures
            match result {
                Ok(_) => nav matches MgmtKeyNav::Popup { title, body } && title@ == "Success"@
                    && body@ == "PIV management key changed successfully.\nStore the new key in a safe place."@,
                Err(e) => nav matches MgmtKeyNav::Popup { title, body } && title@ == "Error"@
                    && body@ == "Failed to change management key: "@ + e@,
            },
    {
        match result {
            Ok(_) => MgmtKeyNav::Popup {
                title: String::from_str("Success"),
                body: String::from_str("PIV management key changed successfully.\nStore the new key in a safe place."),
            },
            Err(e) => {
                let mut body = String::from_str("Failed to change management key: ");
                body.append(e.as_str());
                MgmtKeyNav::Popup { title: String::from_str("Error"), body }
            },
        }
    }
}

} // verus!
