//! The input line of the terminal console: a text with a cursor counted in
//! characters, and the logs shown beside it.
use vstd::prelude::*;
use crate::command::{parse_command, parsed_as, CommandType};

verus! {

#[derive(Debug, PartialEq, Eq)]
pub enum InputMode {
    Normal,
    Insert,
}

pub struct RatApp {
    input: String,
    char_idx: usize,
    input_mode: InputMode,
    /// Lines the user submitted, oldest first.
    bot_log: Vec<String>,
    /// Messages that came from the server, oldest first.
    server_msgs: Vec<String>,
}

/// Relies on std's `From<char> for String`: a string of that one character.
#[verifier::external_body]
fn char_string(c: char) -> (r: String)
    ensures
        r@ == seq![c],
{
    String::from(c)
}

impl RatApp {
    /// The text being edited.
    pub closed spec fn text(&self) -> Seq<char> {
        self.input@
    }

    /// The cursor, as a count of characters before it.
    pub closed spec fn cursor(&self) -> nat {
        self.char_idx as nat
    }

    pub closed spec fn mode(&self) -> InputMode {
        self.input_mode
    }

    /// Lines the user submitted, oldest first.
    pub closed spec fn log(&self) -> Seq<String> {
        self.bot_log@
    }

    /// Messages that came from the server, oldest first.
    pub closed spec fn messages(&self) -> Seq<String> {
        self.server_msgs@
    }

    /// The cursor stands inside the text or right after it.
    pub open spec fn wf(&self) -> bool {
        self.cursor() <= self.text().len()
    }

    /// An empty line in normal mode, with empty logs.
    pub fn new() -> (r: RatApp)
        ensures
            r.wf(),
            r.text() == Seq::<char>::empty(),
            r.cursor() == 0,
            r.mode() is Normal,
            r.log() == Seq::<String>::empty(),
            r.messages() == Seq::<String>::empty(),
    {
        RatApp {
            input: String::new(),
            char_idx: 0,
            input_mode: InputMode::Normal,
            bot_log: Vec::new(),
            server_msgs: Vec::new(),
        }
    }

    /// The text being edited.
    pub fn input(&self) -> (r: &str)
        ensures
            r@ == self.text(),
    {
        self.input.as_str()
    }

    pub fn input_mode(&self) -> (r: &InputMode)
        ensures
            *r == self.mode(),
    {
        &self.input_mode
    }

    /// Switches between normal and insert mode; the line is kept.
    pub fn set_input_mode(&mut self, mode: InputMode)
        ensures
            final(self).mode() == mode,
            final(self).text() == old(self).text(),
            final(self).cursor() == old(self).cursor(),
            final(self).log() == old(self).log(),
            final(self).messages() == old(self).messages(),
    {
        self.input_mode = mode;
    }

    pub fn bot_log(&self) -> (r: &Vec<String>)
        ensures
            r@ == self.log(),
    {
        &self.bot_log
    }

    pub fn server_msgs(&self) -> (r: &Vec<String>)
        ensures
            r@ == self.messages(),
    {
        &self.server_msgs
    }

    /// The cursor position in characters.
    pub fn char_idx(&self) -> (r: usize)
        ensures
            r == self.cursor(),
    {
        self.char_idx
    }

    /// `new_cursor_pos`, brought inside the text.
    pub fn clamp_cursor(&self, new_cursor_pos: usize) -> (r: usize)
        ensures
            r == if new_cursor_pos <= self.text().len() { new_cursor_pos as nat } else { self.text().len() },
            self.text().len() <= usize::MAX,
    {
        let n = self.input.as_str().unicode_len();
        if new_cursor_pos <= n {
            new_cursor_pos
        } else {
            n
        }
    }

    /// Moves the cursor one character left, if it can.
    pub fn move_cursor_left(&mut self)
        requires
            old(self).wf(),
        ensures
            final(self).wf(),
            final(self).text() == old(self).text(),
            final(self).cursor() == if old(self).cursor() == 0 { 0 } else { (old(self).cursor() - 1) as nat },
            final(self).mode() == old(self).mode(),
            final(self).log() == old(self).log(),
            final(self).messages() == old(self).messages(),
    {
        let new_idx = self.char_idx.saturating_sub(1);
        self.char_idx = self.clamp_cursor(new_idx);
    }

    /// Moves the cursor one character right, if it can.
    pub fn move_cursor_right(&mut self)
        requires
            old(self).wf(),
        ensures
            final(self).wf(),
            final(self).text() == old(self).text(),
            final(self).cursor() == if old(self).cursor() == old(self).text().len() {
                old(self).cursor()
            } else {
                old(self).cursor() + 1
            },
            final(self).mode() == old(self).mode(),
            final(self).log() == old(self).log(),
            final(self).messages() == old(self).messages(),
    {
        let new_idx = self.char_idx.saturating_add(1);
        self.char_idx = self.clamp_cursor(new_idx);
    }

    /// Puts the cursor at the start of the line.
    pub fn reset_cursor(&mut self)
        ensures
            final(self).text() == old(self).text(),
            final(self).cursor() == 0,
            final(self).mode() == old(self).mode(),
            final(self).log() == old(self).log(),
            final(self).messages() == old(self).messages(),
    {
        self.char_idx = 0;
    }

    /// Inserts `c` at the cursor and moves the cursor past it.
    pub fn enter_char(&mut self, c: char)
        requires
            old(self).wf(),
        ensures
            final(self).wf(),
            final(self).text() == old(self).text().insert(old(self).cursor() as int, c),
            final(self).cursor() == old(self).cursor() + 1,
            final(self).mode() == old(self).mode(),
            final(self).log() == old(self).log(),
            final(self).messages() == old(self).messages(),
    {
        let n = self.input.as_str().unicode_len();
        let i = self.char_idx;
        let mut s = String::from_str(self.input.as_str().substring_char(0, i));
        let one = char_string(c);
        s.append(one.as_str());
        s.append(self.input.as_str().substring_char(i, n));
        assert(s@ =~= old(self).text().insert(i as int, c));
        self.input = s;
        self.move_cursor_right();
    }

    /// Deletes the character before the cursor and moves the cursor onto its place;
    /// at the start of the line nothing changes.
    pub fn delete_char(&mut self)
        requires
            old(self).wf(),
        ensures
            final(self).wf(),
            old(self).cursor() == 0 ==> final(self).text() == old(self).text() && final(self).cursor() == 0,
            old(self).cursor() > 0 ==> final(self).text() == old(self).text().remove(old(self).cursor() - 1)
                && final(self).cursor() == old(self).cursor() - 1,
            final(self).mode() == old(self).mode(),
            final(self).log() == old(self).log(),
            final(self).messages() == old(self).messages(),
    {
        if self.char_idx != 0 {
            let n = self.input.as_str().unicode_len();
            let i = self.char_idx;
            let mut s = String::from_str(self.input.as_str().substring_char(0, i - 1));
            s.append(self.input.as_str().substring_char(i, n));
            assert(s@ =~= old(self).text().remove(i - 1));
            self.move_cursor_left();
            self.input = s;
        }
    }

    /// The command on the input line, if it names one.
    pub fn process_command(&self) -> (r: Option<CommandType>)
        ensures
            parsed_as(self.text(), r),
    {
        parse_command(self.input.as_str())
    }

    /// Sends the line: its command, if any, is returned for the game client, the
    /// line goes to the end of the bot log, and the line is emptied with the
    /// cursor at its start.
    pub fn submit_msg(&mut self) -> (r: Option<CommandType>)
        ensures
            parsed_as(old(self).text(), r),
            final(self).wf(),
            final(self).text() == Seq::<char>::empty(),
            final(self).cursor() == 0,
            final(self).log().len() == old(self).log().len() + 1,
            final(self).log().drop_last() == old(self).log(),
            final(self).log().last()@ == old(self).text(),
            final(self).mode() == old(self).mode(),
            final(self).messages() == old(self).messages(),
    {
        let command = self.process_command();
        self.bot_log.push(self.input.clone());
        self.input = String::new();
        self.char_idx = 0;
        command
    }

    /// Appends a message from the server to its log.
    pub fn push_server_msg(&mut self, msg: String)
        ensures
            final(self).messages() == old(self).messages().push(msg),
            final(self).text() == old(self).text(),
            final(self).cursor() == old(self).cursor(),
            final(self).mode() == old(self).mode(),
            final(self).log() == old(self).log(),
    {
        self.server_msgs.push(msg);
    }
}

} // verus!
