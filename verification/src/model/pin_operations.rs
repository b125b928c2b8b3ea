//! OpenPGP PIN operations through `gpg --card-edit` with loopback pinentry: the
//! dialogue with gpg's status stream, and the OpenPGP factory reset commands.
use vstd::prelude::*;
use vstd::string::*;
use crate::text::{chars_of, starts_with, starts_with_chars, string_from_chars, subvec};

verus! {

/// The outcome of a PIN operation: success, and the messages gathered from
/// gpg's status output.
#[derive(Debug)]
pub struct PinOperationResult {
    pub success: bool,
    pub messages: Vec<String>,
}

/// How the dialogue treats a status line of gpg.
#[derive(Debug, Clone, Copy, PartialEq, Eq, Structural)]
pub enum GpgStatusKind {
    /// gpg asks for the next PIN (`GET_HIDDEN`).
    GetHidden,
    /// `ERROR`.
    Error,
    /// `SC_OP_FAILURE`.
    ScOpFailure,
    /// `SC_OP_SUCCESS`.
    ScOpSuccess,
    /// A line not shown: prompts, progress and lines that are no status.
    Silent,
    /// Any other status, shown.
    Other,
}

/// What the caller does with gpg's standard input.
#[derive(Debug)]
pub enum GpgInput {
    /// Write this line.
    WriteLine(String),
    /// Close standard input (end of commands).
    Close,
}

/// The mathematical value of a [`GpgInput`].
pub enum GpgInputView {
    WriteLine(Seq<char>),
    Close,
}

impl View for GpgInput {
    type V = GpgInputView;

    open spec fn view(&self) -> GpgInputView {
        match self {
            GpgInput::WriteLine(l) => GpgInputView::WriteLine(l@),
            GpgInput::Close => GpgInputView::Close,
        }
    }
}

/// The views of a sequence of inputs.
pub open spec fn input_views(s: Seq<GpgInput>) -> Seq<GpgInputView> {
    s.map_values(|i: GpgInput| i@)
}

/// The views of a sequence of strings.
pub open spec fn string_views(s: Seq<String>) -> Seq<Seq<char>> {
    s.map_values(|x: String| x@)
}

/// Writing each line.
pub open spec fn write_all(lines: Seq<Seq<char>>) -> Seq<GpgInputView> {
    lines.map_values(|l: Seq<char>| GpgInputView::WriteLine(l))
}

/// A PIN dialogue with `gpg --card-edit`: the commands before the PINs are
/// written at once; each `GET_HIDDEN` gets the next PIN; after the last PIN the
/// remaining commands follow and standard input closes; an error closes it too.
pub struct GpgPinSession {
    pub post_commands: Vec<String>,
    pub pins: Vec<String>,
    pub next_pin: usize,
    pub messages: Vec<String>,
    pub success: bool,
    pub input_open: bool,
}

/// The mathematical value of a [`GpgPinSession`].
pub struct GpgPinView {
    pub post_commands: Seq<Seq<char>>,
    pub pins: Seq<Seq<char>>,
    pub next_pin: int,
    pub messages: Seq<Seq<char>>,
    pub success: bool,
    pub input_open: bool,
}

impl View for GpgPinSession {
    type V = GpgPinView;

    open spec fn view(&self) -> GpgPinView {
        GpgPinView {
            post_commands: string_views(self.post_commands@),
            pins: string_views(self.pins@),
            next_pin: self.next_pin as int,
            messages: string_views(self.messages@),
            success: self.success,
            input_open: self.input_open,
        }
    }
}

/// Where the commands split: all but the last go first, unless there are no PINs.
pub open spec fn command_split(n_commands: int, n_pins: int) -> int {
    if n_pins == 0 {
        n_commands
    } else if n_commands == 0 {
        0
    } else {
        n_commands - 1
    }
}

/// The messages with `m` added where it is not empty.
pub open spec fn add_message(ms: Seq<Seq<char>>, m: Seq<char>) -> Seq<Seq<char>> {
    if m.len() == 0 {
        ms
    } else {
        ms.push(m)
    }
}

/// The dialogue after a status line of this kind with this message text.
pub open spec fn on_status_spec(s: GpgPinView, kind: GpgStatusKind, msg: Seq<char>) -> (GpgPinView, Seq<GpgInputView>) {
    match kind {
        GpgStatusKind::GetHidden => if s.next_pin < s.pins.len() {
            let pin = s.pins[s.next_pin];
            let next = s.next_pin + 1;
            let first = if s.input_open {
                seq![GpgInputView::WriteLine(pin)]
            } else {
                Seq::empty()
            };
            if next == s.pins.len() {
                (
                    GpgPinView { next_pin: next, input_open: false, ..s },
                    first + if s.input_open {
                        write_all(s.post_commands).push(GpgInputView::Close)
                    } else {
                        Seq::empty()
                    },
                )
            } else {
                (GpgPinView { next_pin: next, ..s }, first)
            }
        } else {
            (s, Seq::empty())
        },
        GpgStatusKind::Error | GpgStatusKind::ScOpFailure => (
            GpgPinView {
                messages: add_message(s.messages, msg),
                success: false,
                input_open: false,
                ..s
            },
            if s.input_open {
                seq![GpgInputView::Close]
            } else {
                Seq::empty()
            },
        ),
        GpgStatusKind::ScOpSuccess | GpgStatusKind::Other => (
            GpgPinView { messages: add_message(s.messages, msg), ..s },
            Seq::empty(),
        ),
        GpgStatusKind::Silent => (s, Seq::empty()),
    }
}

/// The result once gpg exited: a failing exit fails a successful dialogue (with
/// a message where there is none); a success without messages says so.
pub open spec fn finish_spec(s: GpgPinView, exit_success: bool) -> (bool, Seq<Seq<char>>) {
    let failed_exit = !exit_success && s.success;
    let success = s.success && exit_success;
    let ms = if failed_exit && s.messages.len() == 0 {
        seq!["Operation failed (gpg exited with non-zero status)"@]
    } else {
        s.messages
    };
    (success, if success && ms.len() == 0 {
        seq!["Operation completed successfully"@]
    } else {
        ms
    })
}

/// The `gpg` arguments of the dialogue.
pub open spec fn gpg_pin_args_spec() -> Seq<Seq<char>> {
    seq![
        "--no-tty"@,
        "--card-edit"@,
        "--pinentry-mode"@,
        "loopback"@,
        "--status-fd"@,
        "2"@,
        "--command-fd"@,
        "0"@,
    ]
}

/// The `gpg` arguments of the dialogue: no tty, card edit, loopback pinentry,
/// status on descriptor 2, commands on descriptor 0.
pub fn gpg_pin_args() -> (r: Vec<&'static str>)
    ensures
        r@.map_values(|a: &'static str| a@) == gpg_pin_args_spec(),
{
    let r = vec!["--no-tty", "--card-edit", "--pinentry-mode", "loopback", "--status-fd", "2", "--command-fd", "0"];
    assert(r@.map_values(|a: &'static str| a@) =~= gpg_pin_args_spec());
    r
}

fn strings_of(v: &[&str]) -> (r: Vec<String>)
    ensures
        string_views(r@) == v@.map_values(|a: &str| a@),
{
    let mut r: Vec<String> = Vec::new();
    let mut i: usize = 0;
    while i < v.len()
        invariant
            i <= v@.len(),
            string_views(r@) == v@.take(i as int).map_values(|a: &str| a@),
        decreases v@.len() - i,
    {
        let ghost before = string_views(r@);
        r.push(v[i].to_owned());
        assert(string_views(r@) =~= before.push(v@[i as int]@));
        assert(v@.take(i + 1).map_values(|a: &str| a@) =~= v@.take(i as int).map_values(|a: &str| a@).push(
            v@[i as int]@,
        ));
        i = i + 1;
    }
    assert(v@.take(v@.len() as int) =~= v@);
    r
}

impl GpgPinSession {
    /// Starts a dialogue with these card-edit commands and PINs; write the
    /// returned lines first.
    pub fn start(commands: &[&str], pins: &[&str]) -> (r: (Self, Vec<GpgInput>))
        ensures
            ({
                let cv = commands@.map_values(|a: &str| a@);
                let k = command_split(cv.len() as int, pins@.len() as int);
                &&& r.0@ == (GpgPinView {
                    post_commands: cv.skip(k),
                    pins: pins@.map_values(|a: &str| a@),
                    next_pin: 0,
                    messages: Seq::empty(),
                    success: true,
                    input_open: true,
                })
                &&& input_views(r.1@) == write_all(cv.take(k))
            }),
    {
        let all = strings_of(commands);
        let ghost cv = commands@.map_values(|a: &str| a@);
        let n = all.len();
        let split: usize = if pins.len() == 0 {
            n
        } else if n == 0 {
            0
        } else {
            n - 1
        };
        let mut pre: Vec<GpgInput> = Vec::new();
        let mut post: Vec<String> = Vec::new();
        let mut i: usize = 0;
        while i < n
            invariant
                n == all@.len(),
                string_views(all@) == cv,
                split <= n,
                i <= n,
                input_views(pre@) == write_all(cv.take(if i < split { i as int } else { split as int })),
                string_views(post@) == if i < split {
                    Seq::<Seq<char>>::empty()
                } else {
                    cv.subrange(split as int, i as int)
                },
            decreases n - i,
        {
            let ghost pv = input_views(pre@);
            let ghost sv = string_views(post@);
            assert(cv[i as int] == all@[i as int]@);
            if i < split {
                pre.push(GpgInput::WriteLine(all[i].clone()));
                assert(input_views(pre@) =~= pv.push(GpgInputView::WriteLine(cv[i as int])));
                assert(cv.take(i + 1) =~= cv.take(i as int).push(cv[i as int]));
                assert(write_all(cv.take(i + 1)) =~= write_all(cv.take(i as int)).push(
                    GpgInputView::WriteLine(cv[i as int]),
                ));
            } else {
                post.push(all[i].clone());
                assert(string_views(post@) =~= sv.push(cv[i as int]));
                assert(cv.subrange(split as int, i + 1) =~= cv.subrange(split as int, i as int).push(
                    cv[i as int],
                ));
            }
            i = i + 1;
        }
        assert(cv.subrange(split as int, n as int) =~= cv.skip(split as int));
        let pin_strings = strings_of(pins);
        let messages: Vec<String> = Vec::new();
        assert(string_views(messages@) =~= Seq::<Seq<char>>::empty());
        (
            GpgPinSession {
                post_commands: post,
                pins: pin_strings,
                next_pin: 0,
                messages,
                success: true,
                input_open: true,
            },
            pre,
        )
    }

    /// Takes a status line of this kind, with its message text, and says what to
    /// write to gpg (see [`on_status_spec`]).
    pub fn on_status(&mut self, kind: GpgStatusKind, message: &str) -> (r: Vec<GpgInput>)
        ensures
            (final(self)@, input_views(r@)) == on_status_spec(old(self)@, kind, message@),
    {
        match kind {
            GpgStatusKind::GetHidden => {
                if self.next_pin < self.pins.len() {
                    let ghost s0 = self@;
                    let mut acts: Vec<GpgInput> = Vec::new();
                    if self.input_open {
                        acts.push(GpgInput::WriteLine(self.pins[self.next_pin].clone()));
                        assert(s0.pins[s0.next_pin] == self.pins@[self.next_pin as int]@);
                        assert(input_views(acts@) =~= seq![GpgInputView::WriteLine(s0.pins[s0.next_pin])]);
                    } else {
                        assert(input_views(acts@) =~= Seq::<GpgInputView>::empty());
                    }
                    self.next_pin = self.next_pin + 1;
                    if self.next_pin == self.pins.len() {
                        if self.input_open {
                            let ghost base = input_views(acts@);
                            let ghost pc = string_views(self.post_commands@);
                            let mut j: usize = 0;
                            while j < self.post_commands.len()
                                invariant
                                    j <= self.post_commands@.len(),
                                    pc == string_views(self.post_commands@),
                                    input_views(acts@) == base + write_all(pc.take(j as int)),
                                decreases self.post_commands@.len() - j,
                            {
                                let ghost before = input_views(acts@);
                                acts.push(GpgInput::WriteLine(self.post_commands[j].clone()));
                                assert(input_views(acts@) =~= before.push(GpgInputView::WriteLine(pc[j as int])));
                                assert(write_all(pc.take(j + 1)) =~= write_all(pc.take(j as int)).push(
                                    GpgInputView::WriteLine(pc[j as int]),
                                ));
                                j = j + 1;
                            }
                            assert(pc.take(pc.len() as int) =~= pc);
                            let ghost before = input_views(acts@);
                            acts.push(GpgInput::Close);
                            assert(input_views(acts@) =~= before.push(GpgInputView::Close));
                        } else {
                            assert(input_views(acts@) =~= Seq::<GpgInputView>::empty() + Seq::<GpgInputView>::empty());
                        }
                        self.input_open = false;
                    }
                    acts
                } else {
                    Vec::new()
                }
            },
            GpgStatusKind::Error | GpgStatusKind::ScOpFailure => {
                let ghost before = string_views(self.messages@);
                if message.unicode_len() > 0 {
                    self.messages.push(message.to_owned());
                    assert(string_views(self.messages@) =~= before.push(message@));
                }
                self.success = false;
                let mut acts: Vec<GpgInput> = Vec::new();
                if self.input_open {
                    acts.push(GpgInput::Close);
                }
                self.input_open = false;
                acts
            },
            GpgStatusKind::ScOpSuccess | GpgStatusKind::Other => {
                let ghost before = string_views(self.messages@);
                if message.unicode_len() > 0 {
                    self.messages.push(message.to_owned());
                    assert(string_views(self.messages@) =~= before.push(message@));
                }
                Vec::new()
            },
            GpgStatusKind::Silent => Vec::new(),
        }
    }

    /// Writing a PIN failed: the dialogue fails with a message naming the error.
    pub fn on_pin_write_failed(&mut self, error: &str)
        ensures
            final(self)@ == (GpgPinView {
                messages: old(self)@.messages.push("Failed to send PIN: "@ + error@),
                success: false,
                ..old(self)@
            }),
    {
        let mut m = String::from_str("Failed to send PIN: ");
        m.append(error);
        let ghost before = string_views(self.messages@);
        self.messages.push(m);
        assert(string_views(self.messages@) =~= before.push(m@));
        self.success = false;
    }

    /// The result once gpg exited (see [`finish_spec`]).
    pub fn finish(self, exit_success: bool) -> (r: PinOperationResult)
        ensures
            (r.success, string_views(r.messages@)) == finish_spec(self@, exit_success),
    {
        let failed_exit = !exit_success && self.success;
        let success = self.success && exit_success;
        let mut messages = self.messages;
        if failed_exit && messages.len() == 0 {
            messages.push(String::from_str("Operation failed (gpg exited with non-zero status)"));
        }
        if success && messages.len() == 0 {
            messages.push(String::from_str("Operation completed successfully"));
        }
        PinOperationResult { success, messages }
    }
}

/// Changes the User PIN: `admin`, `passwd`, `1`, `q`, with the current PIN and
/// the new one twice.
pub fn change_user_pin_programmatic(current_pin: &str, new_pin: &str) -> (r: (GpgPinSession, Vec<GpgInput>))
    ensures
        r.0@.pins == seq![current_pin@, new_pin@, new_pin@],
        r.0@.post_commands == seq!["q"@],
        input_views(r.1@) == write_all(seq!["admin"@, "passwd"@, "1"@]),
        r.0@.next_pin == 0 && r.0@.messages.len() == 0 && r.0@.success && r.0@.input_open,
{
    let cmds = ["admin", "passwd", "1", "q"];
    let pins = [current_pin, new_pin, new_pin];
    let r = GpgPinSession::start(&cmds, &pins);
    proof {
        lemma_plan(cmds@, pins@);
    }
    r
}

/// Changes the Admin PIN: `admin`, `passwd`, `3`, `q`, with the current Admin
/// PIN and the new one twice.
pub fn change_admin_pin_programmatic(current_pin: &str, new_pin: &str) -> (r: (GpgPinSession, Vec<GpgInput>))
    ensures
        r.0@.pins == seq![current_pin@, new_pin@, new_pin@],
        r.0@.post_commands == seq!["q"@],
        input_views(r.1@) == write_all(seq!["admin"@, "passwd"@, "3"@]),
        r.0@.next_pin == 0 && r.0@.messages.len() == 0 && r.0@.success && r.0@.input_open,
{
    let cmds = ["admin", "passwd", "3", "q"];
    let pins = [current_pin, new_pin, new_pin];
    let r = GpgPinSession::start(&cmds, &pins);
    proof {
        lemma_plan(cmds@, pins@);
    }
    r
}

/// Sets the Reset Code: `admin`, `passwd`, `4`, `q`, with the Admin PIN and the
/// new code twice.
pub fn set_reset_code_programmatic(admin_pin: &str, reset_code: &str) -> (r: (GpgPinSession, Vec<GpgInput>))
    ensures
        r.0@.pins == seq![admin_pin@, reset_code@, reset_code@],
        r.0@.post_commands == seq!["q"@],
        input_views(r.1@) == write_all(seq!["admin"@, "passwd"@, "4"@]),
        r.0@.next_pin == 0 && r.0@.messages.len() == 0 && r.0@.success && r.0@.input_open,
{
    let cmds = ["admin", "passwd", "4", "q"];
    let pins = [admin_pin, reset_code, reset_code];
    let r = GpgPinSession::start(&cmds, &pins);
    proof {
        lemma_plan(cmds@, pins@);
    }
    r
}

/// Unblocks the User PIN: `admin`, `passwd`, `2`, `q`, with the Reset Code or
/// Admin PIN and the new PIN twice.
pub fn unblock_user_pin_programmatic(reset_code_or_admin: &str, new_pin: &str) -> (r: (
    GpgPinSession,
    Vec<GpgInput>,
))
    ensures
        r.0@.pins == seq![reset_code_or_admin@, new_pin@, new_pin@],
        r.0@.post_commands == seq!["q"@],
        input_views(r.1@) == write_all(seq!["admin"@, "passwd"@, "2"@]),
        r.0@.next_pin == 0 && r.0@.messages.len() == 0 && r.0@.success && r.0@.input_open,
{
    let cmds = ["admin", "passwd", "2", "q"];
    let pins = [reset_code_or_admin, new_pin, new_pin];
    let r = GpgPinSession::start(&cmds, &pins);
    proof {
        lemma_plan(cmds@, pins@);
    }
    r
}

proof fn lemma_plan(cmds: Seq<&str>, pins: Seq<&str>)
    requires
        cmds.len() == 4,
        pins.len() == 3,
    ensures
        cmds.map_values(|a: &str| a@).skip(3) == seq![cmds[3]@],
        cmds.map_values(|a: &str| a@).take(3) == seq![cmds[0]@, cmds[1]@, cmds[2]@],
        pins.map_values(|a: &str| a@) == seq![pins[0]@, pins[1]@, pins[2]@],
{
    assert(cmds.map_values(|a: &str| a@).skip(3) =~= seq![cmds[3]@]);
    assert(cmds.map_values(|a: &str| a@).take(3) =~= seq![cmds[0]@, cmds[1]@, cmds[2]@]);
    assert(pins.map_values(|a: &str| a@) =~= seq![pins[0]@, pins[1]@, pins[2]@]);
}

/// TERMINATE DF of the OpenPGP applet (allowed once the Admin PIN is blocked).
pub open spec fn terminate_df_apdu() -> Seq<u8> {
    seq![0x00u8, 0xE6, 0x00, 0x00]
}

/// ACTIVATE FILE of the OpenPGP applet (restores factory data and PINs).
pub open spec fn activate_file_apdu() -> Seq<u8> {
    seq![0x00u8, 0x44, 0x00, 0x00]
}

/// The two commands of an OpenPGP factory reset, in order.
pub fn factory_reset_apdus() -> (r: (Vec<u8>, Vec<u8>))
    ensures
        r.0@ == terminate_df_apdu(),
        r.1@ == activate_file_apdu(),
{
    let t = vec![0x00u8, 0xE6, 0x00, 0x00];
    let a = vec![0x00u8, 0x44, 0x00, 0x00];
    assert(t@ =~= terminate_df_apdu());
    assert(a@ =~= activate_file_apdu());
    (t, a)
}

/// Four upper-case hex digits (`format!("{:04X}", w)`).
pub open spec fn hex4_text(w: u16) -> Seq<char> {
    crate::model::touch_policy::hex_word_text(w).skip(2)
}

fn push_hex4(s: &mut String, w: u16)
    ensures
        final(s)@ == old(s)@ + hex4_text(w),
{
    let mut t = String::new();
    crate::model::touch_policy::push_hex_word(&mut t, w);
    let v = chars_of(t.as_str());
    let tail = subvec(&v, 2, 6);
    assert(tail@ =~= hex4_text(w));
    crate::text::push_chars(s, &tail);
}

/// The report of a successful factory reset.
pub open spec fn factory_reset_done_text() -> Seq<char> {
    "OpenPGP application reset successfully.\nAll keys, cardholder data, and PINs have been wiped.\nDefault PINs restored:\nUser PIN:  123456\nAdmin PIN: 12345678\nReset Code: not set"@
}

/// The outcome of TERMINATE DF by its status word (0 where transmission failed).
pub fn terminate_outcome(sw: u16) -> (r: Result<(), String>)
    ensures
        sw == 0x9000 ==> r is Ok,
        sw != 0x9000 ==> (r matches Err(m) && m@ == "TERMINATE DF failed (SW "@ + hex4_text(sw)
            + "). Factory reset requires Admin PIN to be fully blocked (0 retries remaining)."@),
{
    if sw == 0x9000 {
        Ok(())
    } else {
        let mut m = String::from_str("TERMINATE DF failed (SW ");
        push_hex4(&mut m, sw);
        m.append("). Factory reset requires Admin PIN to be fully blocked (0 retries remaining).");
        Err(m)
    }
}

/// The outcome of ACTIVATE FILE by its status word.
pub fn activate_outcome(sw: u16) -> (r: Result<String, String>)
    ensures
        sw == 0x9000 ==> (r matches Ok(m) && m@ == factory_reset_done_text()),
        sw != 0x9000 ==> (r matches Err(m) && m@ == "ACTIVATE FILE failed (SW "@ + hex4_text(sw) + ")"@),
{
    if sw == 0x9000 {
        Ok(
            String::from_str(
                "OpenPGP application reset successfully.\nAll keys, cardholder data, and PINs have been wiped.\nDefault PINs restored:\nUser PIN:  123456\nAdmin PIN: 12345678\nReset Code: not set",
            ),
        )
    } else {
        let mut m = String::from_str("ACTIVATE FILE failed (SW ");
        push_hex4(&mut m, sw);
        m.append(")");
        Err(m)
    }
}

/// How a line of `--status-fd` output counts: `[GNUPG:] KEYWORD ...` by its
/// keyword; any other line is silent.
pub open spec fn status_kind(line: Seq<char>) -> GpgStatusKind {
    let p = "[GNUPG:] "@;
    if !starts_with(line, p) {
        GpgStatusKind::Silent
    } else {
        let rest = line.skip(p.len() as int);
        if starts_with(rest, "GET_HIDDEN"@) {
            GpgStatusKind::GetHidden
        } else if starts_with(rest, "SC_OP_FAILURE"@) {
            GpgStatusKind::ScOpFailure
        } else if starts_with(rest, "SC_OP_SUCCESS"@) {
            GpgStatusKind::ScOpSuccess
        } else if starts_with(rest, "ERROR"@) {
            GpgStatusKind::Error
        } else if starts_with(rest, "PINENTRY_LAUNCHED"@) || starts_with(rest, "KEY_CONSIDERED"@)
            || starts_with(rest, "GOT_IT"@) || starts_with(rest, "GET_LINE"@) {
            GpgStatusKind::Silent
        } else {
            GpgStatusKind::Other
        }
    }
}

/// Classifies a status line (see [`status_kind`]) and gives the text after
/// the `[GNUPG:] ` prefix as its message.
pub fn classify_status_line(line: &str) -> (r: (GpgStatusKind, String))
    ensures
        r.0 == status_kind(line@),
        starts_with(line@, "[GNUPG:] "@) ==> r.1@ == line@.skip(9),
        !starts_with(line@, "[GNUPG:] "@) ==> r.1@ == line@,
{
    let v = chars_of(line);
    let p = chars_of("[GNUPG:] ");
    proof {
        reveal_strlit("[GNUPG:] ");
    }
    if !starts_with_chars(&v, &p) {
        return (GpgStatusKind::Silent, line.to_owned());
    }
    let rest = subvec(&v, 9, v.len());
    assert(rest@ =~= v@.skip(9));
    let kind = if starts_with_chars(&rest, &chars_of("GET_HIDDEN")) {
        GpgStatusKind::GetHidden
    } else if starts_with_chars(&rest, &chars_of("SC_OP_FAILURE")) {
        GpgStatusKind::ScOpFailure
    } else if starts_with_chars(&rest, &chars_of("SC_OP_SUCCESS")) {
        GpgStatusKind::ScOpSuccess
    } else if starts_with_chars(&rest, &chars_of("ERROR")) {
        GpgStatusKind::Error
    } else if starts_with_chars(&rest, &chars_of("PINENTRY_LAUNCHED")) || starts_with_chars(
        &rest,
        &chars_of("KEY_CONSIDERED"),
    ) || starts_with_chars(&rest, &chars_of("GOT_IT")) || starts_with_chars(&rest, &chars_of("GET_LINE")) {
        GpgStatusKind::Silent
    } else {
        GpgStatusKind::Other
    };
    (kind, string_from_chars(&rest))
}

/// Once gpg's input is closed, nothing more is written to it.
pub proof fn lemma_nothing_after_close(s: GpgPinView, kind: GpgStatusKind, msg: Seq<char>)
    requires
        !s.input_open,
    ensures
        on_status_spec(s, kind, msg).1.len() == 0,
        !on_status_spec(s, kind, msg).0.input_open,
{
}

/// Each PIN prompt gets the next PIN in order, and the commands after the PINs
/// (such as `q`) are written only together with the last PIN, never earlier.
pub proof fn lemma_pins_in_order(s: GpgPinView, msg: Seq<char>)
    requires
        s.input_open,
        0 <= s.next_pin < s.pins.len(),
    ensures
        on_status_spec(s, GpgStatusKind::GetHidden, msg).1[0] == GpgInputView::WriteLine(s.pins[s.next_pin]),
        on_status_spec(s, GpgStatusKind::GetHidden, msg).0.next_pin == s.next_pin + 1,
        on_status_spec(s, GpgStatusKind::GetHidden, msg).1.len() > 1 ==> s.next_pin + 1 == s.pins.len(),
{
}

/// A failure status (ERROR or SC_OP_FAILURE) makes the operation fail whatever
/// follows, and the result reports failure.
pub proof fn lemma_failure_sticks(s: GpgPinView, kind: GpgStatusKind, msg: Seq<char>, exit_success: bool)
    requires
        kind == GpgStatusKind::Error || kind == GpgStatusKind::ScOpFailure,
    ensures
        !on_status_spec(s, kind, msg).0.success,
        !finish_spec(on_status_spec(s, kind, msg).0, exit_success).0,
{
}

} // verus!
