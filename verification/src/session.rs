//! Shell session: the per-byte state machine that drives the line
//! editor, the history ring, the autocomplete matcher and, on a
//! committed line, the command processor.
//!
//! The whole transition relation is public: `plain_step`, `esc_step` and
//! `csi_step` say, byte class by byte class, what `feed_byte` does to
//! the session, what it echoes, and when it commits a line.
use vstd::prelude::*;
use crate::autocomplete::{spec_suggestions, suggestions};
use crate::command::{process_line, spec_reprogram, spec_response};
use crate::history::{push_spec, History};
use crate::line::{LineBuffer, LINE_MAX};

verus! {

/// Decoder state for terminal escape sequences: plain bytes, after an
/// escape byte, or inside a control-sequence introducer.
pub enum EscState {
    Plain,
    AfterEsc,
    InCsi,
}

/// The shell session state.
pub struct Session {
    pub line: LineBuffer,
    pub history: History,
    /// History navigation: 0 edits the live line, `n > 0` shows the
    /// `n`-th newest history entry.
    pub nav: usize,
    /// The prefix autocomplete cycles over, frozen at the first tab.
    pub ac_anchor: Vec<char>,
    /// Position of the next candidate in the cycle.
    pub ac_cycle: usize,
    /// Whether the previous byte was a tab, so another tab keeps cycling.
    pub ac_active: bool,
    pub esc: EscState,
}

/// What one received byte produced: bytes to echo to the terminal, and
/// the committed line, if this byte completed one.
pub struct ByteOutcome {
    pub echo: Vec<char>,
    pub committed: Option<Vec<char>>,
}

/// The committed line as a character sequence, if any.
pub open spec fn committed_view(c: Option<Vec<char>>) -> Option<Seq<char>> {
    match c {
        Some(v) => Some(v@),
        None => None,
    }
}

/// The terminal redraw the editor emits after a visible change: return
/// to column zero, erase the line, prompt, content, and cursor backup.
pub open spec fn spec_redraw(content: Seq<char>, cursor: int) -> Seq<char> {
    "\r\u{1b}[K\u{bb} "@ + content + Seq::new((content.len() - cursor) as nat, |i: int| '\u{8}')
}

/// What a byte does outside any escape sequence. A carriage return or
/// line feed commits the line, recording a non-empty one in the history;
/// backspace deletes before the cursor; tab completes against the prefix
/// typed before the first tab of the run, cycling through the matches in
/// catalog order; the designated control byte rings the bell and touches
/// nothing; an escape byte only changes the decoder state; a printable
/// byte is inserted at the cursor, or dropped when the line is full; any
/// other byte has no effect and no output.
pub open spec fn plain_step(
    pre: Session,
    post: Session,
    b: u8,
    echo: Seq<char>,
    committed: Option<Seq<char>>,
) -> bool {
    if b == 0x0du8 || b == 0x0au8 {
        &&& committed == Some(pre.line@)
        &&& echo.len() == 0
        &&& post.line@.len() == 0 && post.line.spec_cursor() == 0
        &&& post.history@ == (if pre.line@.len() > 0 {
            push_spec(pre.history@, pre.line@)
        } else {
            pre.history@
        })
        &&& post.nav == 0 && !post.ac_active && post.esc is Plain
    } else {
        &&& committed is None
        &&& post.history@ == pre.history@
        &&& if b == 0x08u8 || b == 0x7fu8 {
            &&& post.line@ == (if pre.line.spec_cursor() > 0 {
                pre.line@.remove(pre.line.spec_cursor() - 1)
            } else {
                pre.line@
            })
            &&& post.line.spec_cursor() == (if pre.line.spec_cursor() > 0 {
                pre.line.spec_cursor() - 1
            } else {
                0
            })
            &&& echo == spec_redraw(post.line@, post.line.spec_cursor())
            &&& post.nav == pre.nav && !post.ac_active && post.esc is Plain
        } else if b == 0x09u8 {
            let anchor = if pre.ac_active {
                pre.ac_anchor@
            } else {
                pre.line@
            };
            let m = spec_suggestions(anchor);
            &&& post.ac_anchor@ == anchor
            &&& post.ac_active
            &&& if m.len() > 0 {
                let idx = (if pre.ac_active {
                    pre.ac_cycle as int
                } else {
                    0
                }) % (m.len() as int);
                &&& post.line@ == m[idx] && post.line.spec_cursor() == m[idx].len()
                &&& post.ac_cycle == idx + 1
                &&& echo == spec_redraw(post.line@, post.line.spec_cursor())
            } else {
                &&& post.line == pre.line
                &&& echo.len() == 0
            }
            &&& post.nav == pre.nav && post.esc is Plain
        } else if b == 0x02u8 {
            &&& post == pre
            &&& echo == seq!['\u{7}']
        } else if b == 0x1bu8 {
            &&& post == (Session { esc: EscState::AfterEsc, ..pre })
            &&& echo.len() == 0
        } else if 0x20u8 <= b <= 0x7eu8 {
            &&& post.line@ == (if pre.line@.len() < LINE_MAX {
                pre.line@.insert(pre.line.spec_cursor(), b as char)
            } else {
                pre.line@
            })
            &&& post.line.spec_cursor() == (if pre.line@.len() < LINE_MAX {
                pre.line.spec_cursor() + 1
            } else {
                pre.line.spec_cursor()
            })
            &&& echo == spec_redraw(post.line@, post.line.spec_cursor())
            &&& post.nav == pre.nav && !post.ac_active && post.esc is Plain
        } else {
            &&& post == pre
            &&& echo.len() == 0
        }
    }
}

/// What a byte does right after an escape byte: a bracket opens a
/// control sequence, anything else returns to plain decoding; nothing
/// else changes and nothing is echoed or committed.
pub open spec fn esc_step(
    pre: Session,
    post: Session,
    b: u8,
    echo: Seq<char>,
    committed: Option<Seq<char>>,
) -> bool {
    &&& committed is None
    &&& echo.len() == 0
    &&& post == (Session {
        esc: if b == 0x5bu8 {
            EscState::InCsi
        } else {
            EscState::Plain
        },
        ..pre
    })
}

/// What a byte does inside a control sequence, which it always ends. Up
/// recalls the next older history entry and down the next newer one,
/// each clamping at the history bounds with no wraparound, down past the
/// newest returning to an empty live line; right and left move the
/// cursor within the line; any other final byte does nothing.
pub open spec fn csi_step(
    pre: Session,
    post: Session,
    b: u8,
    echo: Seq<char>,
    committed: Option<Seq<char>>,
) -> bool {
    &&& committed is None
    &&& post.history@ == pre.history@
    &&& post.esc is Plain
    &&& if b == 0x41u8 {
        &&& !post.ac_active
        &&& if pre.nav < pre.history@.len() {
            &&& post.nav == pre.nav + 1
            &&& post.line@ == pre.history@[pre.history@.len() - pre.nav - 1]
            &&& post.line.spec_cursor() == post.line@.len()
            &&& echo == spec_redraw(post.line@, post.line.spec_cursor())
        } else {
            &&& post.nav == pre.nav
            &&& post.line == pre.line
            &&& echo.len() == 0
        }
    } else if b == 0x42u8 {
        &&& !post.ac_active
        &&& if pre.nav > 1 {
            &&& post.nav == pre.nav - 1
            &&& post.line@ == pre.history@[pre.history@.len() - pre.nav + 1]
            &&& post.line.spec_cursor() == post.line@.len()
            &&& echo == spec_redraw(post.line@, post.line.spec_cursor())
        } else if pre.nav == 1 {
            &&& post.nav == 0
            &&& post.line@.len() == 0 && post.line.spec_cursor() == 0
            &&& echo == spec_redraw(post.line@, post.line.spec_cursor())
        } else {
            &&& post.nav == 0
            &&& post.line == pre.line
            &&& echo.len() == 0
        }
    } else if b == 0x43u8 {
        &&& post.line@ == pre.line@
        &&& post.line.spec_cursor() == (if pre.line.spec_cursor() < pre.line@.len() {
            pre.line.spec_cursor() + 1
        } else {
            pre.line.spec_cursor()
        })
        &&& echo == spec_redraw(post.line@, post.line.spec_cursor())
        &&& post.nav == pre.nav && post.ac_active == pre.ac_active
    } else if b == 0x44u8 {
        &&& post.line@ == pre.line@
        &&& post.line.spec_cursor() == (if pre.line.spec_cursor() > 0 {
            pre.line.spec_cursor() - 1
        } else {
            0
        })
        &&& echo == spec_redraw(post.line@, post.line.spec_cursor())
        &&& post.nav == pre.nav && post.ac_active == pre.ac_active
    } else {
        &&& post == (Session { esc: EscState::Plain, ..pre })
        &&& echo.len() == 0
    }
}

impl Session {
    /// Everything the per-byte machine maintains: a well-formed editor
    /// line and history, and a navigation index inside the history.
    pub open spec fn wf(self) -> bool {
        &&& self.line.wf()
        &&& self.history.wf()
        &&& self.nav <= self.history@.len()
    }

    /// A fresh session at an empty prompt: empty line, empty history,
    /// plain decoding, navigation at the live line, autocomplete idle.
    pub fn new() -> (r: Session)
        ensures
            r.wf(),
            r.line@ == Seq::<char>::empty(),
            r.line.spec_cursor() == 0,
            r.history@ == Seq::<Seq<char>>::empty(),
            r.nav == 0,
            !r.ac_active,
            r.ac_cycle == 0,
            r.ac_anchor@ == Seq::<char>::empty(),
            r.esc is Plain,
    {
        let r = Session {
            line: LineBuffer::new(),
            history: History::new(),
            nav: 0,
            ac_anchor: Vec::new(),
            ac_cycle: 0,
            ac_active: false,
            esc: EscState::Plain,
        };
        proof {
            assert(r.ac_anchor@ =~= Seq::<char>::empty());
        }
        r
    }

    /// The redraw for the current line.
    fn redraw_echo(&self) -> (r: Vec<char>)
        requires
            self.line.wf(),
        ensures
            r@ == spec_redraw(self.line@, self.line.spec_cursor()),
    {
        let mut r: Vec<char> = Vec::new();
        crate::text::push_str_chars(&mut r, "\r\u{1b}[K\u{bb} ");
        let content = self.line.content();
        crate::command::push_chars(&mut r, &content);
        let mut n = self.line.len() - self.line.cursor();
        let ghost target = spec_redraw(self.line@, self.line.spec_cursor());
        proof {
            assert(target.len() == r@.len() + n);
            assert(r@ =~= target.take(r@.len() as int));
        }
        while n > 0
            invariant
                r@.len() + n == target.len(),
                n <= self.line@.len() - self.line.spec_cursor(),
                r@ == target.take(r@.len() as int),
                target == spec_redraw(self.line@, self.line.spec_cursor()),
                self.line.wf(),
            decreases n,
        {
            r.push('\u{8}');
            proof {
                assert(target[r@.len() - 1] == '\u{8}');
                assert(r@ =~= target.take(r@.len() as int));
            }
            n = n - 1;
        }
        proof {
            assert(r@ =~= target);
        }
        r
    }

    /// Feeds one received byte to the editor: the transition relation of
    /// the decoder state the byte arrives in applies in full.
    pub fn feed_byte(&mut self, b: u8) -> (r: ByteOutcome)
        requires
            old(self).wf(),
        ensures
            final(self).wf(),
            old(self).esc is Plain ==> plain_step(
                *old(self),
                *final(self),
                b,
                r.echo@,
                committed_view(r.committed),
            ),
            old(self).esc is AfterEsc ==> esc_step(
                *old(self),
                *final(self),
                b,
                r.echo@,
                committed_view(r.committed),
            ),
            old(self).esc is InCsi ==> csi_step(
                *old(self),
                *final(self),
                b,
                r.echo@,
                committed_view(r.committed),
            ),
    {
        match self.esc {
            EscState::Plain => self.feed_plain(b),
            EscState::AfterEsc => {
                if b == 0x5bu8 {
                    self.esc = EscState::InCsi;
                } else {
                    self.esc = EscState::Plain;
                }
                ByteOutcome { echo: Vec::new(), committed: None }
            },
            EscState::InCsi => {
                self.esc = EscState::Plain;
                let echo = if b == 0x41u8 {
                    self.history_up()
                } else if b == 0x42u8 {
                    self.history_down()
                } else if b == 0x43u8 {
                    self.line.move_right();
                    self.redraw_echo()
                } else if b == 0x44u8 {
                    self.line.move_left();
                    self.redraw_echo()
                } else {
                    Vec::new()
                };
                ByteOutcome { echo, committed: None }
            },
        }
    }

    /// Handles a byte outside any escape sequence.
    fn feed_plain(&mut self, b: u8) -> (r: ByteOutcome)
        requires
            old(self).wf(),
            old(self).esc is Plain,
        ensures
            final(self).wf(),
            plain_step(*old(self), *final(self), b, r.echo@, committed_view(r.committed)),
    {
        if b == 0x0du8 || b == 0x0au8 {
            let content = self.line.content();
            if content.len() > 0 {
                self.history.push(&content);
            }
            self.line.reset();
            self.nav = 0;
            self.ac_active = false;
            return ByteOutcome { echo: Vec::new(), committed: Some(content) };
        }
        if b == 0x08u8 || b == 0x7fu8 {
            self.ac_active = false;
            self.line.backspace();
            let echo = self.redraw_echo();
            return ByteOutcome { echo, committed: None };
        }
        if b == 0x09u8 {
            let echo = self.autocomplete_step();
            return ByteOutcome { echo, committed: None };
        }
        if b == 0x02u8 {
            let mut echo: Vec<char> = Vec::new();
            echo.push('\u{7}');
            proof {
                assert(echo@ =~= seq!['\u{7}']);
            }
            return ByteOutcome { echo, committed: None };
        }
        if b == 0x1bu8 {
            self.esc = EscState::AfterEsc;
            return ByteOutcome { echo: Vec::new(), committed: None };
        }
        if 0x20u8 <= b && b <= 0x7eu8 {
            self.ac_active = false;
            self.line.insert_at_cursor(b as char);
            let echo = self.redraw_echo();
            return ByteOutcome { echo, committed: None };
        }
        ByteOutcome { echo: Vec::new(), committed: None }
    }

    /// Recalls the next older history entry, clamping at the oldest.
    fn history_up(&mut self) -> (echo: Vec<char>)
        requires
            old(self).wf(),
        ensures
            final(self).wf(),
            final(self).history@ == old(self).history@,
            final(self).esc == old(self).esc,
            !final(self).ac_active,
            old(self).nav < old(self).history@.len() ==> final(self).nav == old(self).nav + 1
                && final(self).line@ == old(self).history@[old(self).history@.len() - old(
                self,
            ).nav - 1] && final(self).line.spec_cursor() == final(self).line@.len()
                && echo@ == spec_redraw(final(self).line@, final(self).line.spec_cursor()),
            old(self).nav == old(self).history@.len() ==> final(self).nav == old(self).nav
                && final(self).line == old(self).line && echo@.len() == 0,
    {
        self.ac_active = false;
        if self.nav < self.history.len() {
            self.nav = self.nav + 1;
            let entry = self.history.entry(self.history.len() - self.nav);
            self.line.set_content(&entry);
            self.redraw_echo()
        } else {
            Vec::new()
        }
    }

    /// Recalls the next newer history entry, or returns to the empty
    /// live line, clamping there.
    fn history_down(&mut self) -> (echo: Vec<char>)
        requires
            old(self).wf(),
        ensures
            final(self).wf(),
            final(self).history@ == old(self).history@,
            final(self).esc == old(self).esc,
            !final(self).ac_active,
            old(self).nav > 1 ==> final(self).nav == old(self).nav - 1 && final(self).line@ == old(
                self,
            ).history@[old(self).history@.len() - old(self).nav + 1]
                && final(self).line.spec_cursor() == final(self).line@.len() && echo@
                == spec_redraw(final(self).line@, final(self).line.spec_cursor()),
            old(self).nav == 1 ==> final(self).nav == 0 && final(self).line@.len() == 0
                && final(self).line.spec_cursor() == 0 && echo@ == spec_redraw(
                final(self).line@,
                final(self).line.spec_cursor(),
            ),
            old(self).nav == 0 ==> final(self).nav == 0 && final(self).line == old(self).line
                && echo@.len() == 0,
    {
        self.ac_active = false;
        if self.nav > 1 {
            self.nav = self.nav - 1;
            let entry = self.history.entry(self.history.len() - self.nav);
            self.line.set_content(&entry);
            self.redraw_echo()
        } else if self.nav == 1 {
            self.nav = 0;
            self.line.reset();
            self.redraw_echo()
        } else {
            Vec::new()
        }
    }

    /// One tab press: against the prefix typed before the first tab of
    /// the run, replace the line with the next matching catalog entry in
    /// catalog order; with no match, leave the line unchanged.
    fn autocomplete_step(&mut self) -> (echo: Vec<char>)
        requires
            old(self).wf(),
        ensures
            final(self).wf(),
            final(self).history@ == old(self).history@,
            final(self).esc == old(self).esc,
            final(self).nav == old(self).nav,
            final(self).ac_active,
            final(self).ac_anchor@ == (if old(self).ac_active {
                old(self).ac_anchor@
            } else {
                old(self).line@
            }),
            ({
                let m = spec_suggestions(final(self).ac_anchor@);
                if m.len() > 0 {
                    let idx = (if old(self).ac_active {
                        old(self).ac_cycle as int
                    } else {
                        0
                    }) % (m.len() as int);
                    &&& final(self).line@ == m[idx]
                    &&& final(self).line.spec_cursor() == m[idx].len()
                    &&& final(self).ac_cycle == idx + 1
                    &&& echo@ == spec_redraw(final(self).line@, final(self).line.spec_cursor())
                } else {
                    &&& final(self).line == old(self).line
                    &&& echo@.len() == 0
                }
            }),
    {
        if !self.ac_active {
            self.ac_anchor = self.line.content();
            self.ac_active = true;
            self.ac_cycle = 0;
        }
        let m = suggestions(&self.ac_anchor);
        if m.len() > 0 {
            let idx = self.ac_cycle % m.len();
            self.line.set_content(&m[idx]);
            self.ac_cycle = idx + 1;
            proof {
                let ms = m@.map_values(|v: Vec<char>| v@);
                assert(ms[idx as int] == m@[idx as int]@);
            }
            self.redraw_echo()
        } else {
            Vec::new()
        }
    }
}

/// What handling one byte produced at the top level: everything to write
/// to the terminal, and the new timer-interrupt rate, if the byte
/// completed an accepted blink command.
pub struct StepOutcome {
    pub output: Vec<char>,
    pub reprogram: Option<u32>,
}

/// Feeds one byte through the editor and, when it commits a line,
/// through the command processor. On a commit the output is the exact
/// response for the committed line (prompt included), the line is reset,
/// a non-empty line is recorded in the history, and an accepted blink
/// command carries its new rate out; on any other byte the editor's own
/// transition relation applies and no rate comes out.
pub fn handle_byte(session: &mut Session, b: u8) -> (r: StepOutcome)
    requires
        old(session).wf(),
    ensures
        final(session).wf(),
        ({
            let commit = old(session).esc is Plain && (b == 0x0du8 || b == 0x0au8);
            if commit {
                &&& r.output@ == spec_response(old(session).line@)
                &&& r.reprogram == spec_reprogram(old(session).line@)
                &&& final(session).line@.len() == 0 && final(session).line.spec_cursor() == 0
                &&& final(session).history@ == (if old(session).line@.len() > 0 {
                    push_spec(old(session).history@, old(session).line@)
                } else {
                    old(session).history@
                })
                &&& final(session).nav == 0 && !final(session).ac_active
                &&& final(session).esc is Plain
            } else {
                &&& r.reprogram is None
                &&& old(session).esc is Plain ==> plain_step(
                    *old(session),
                    *final(session),
                    b,
                    r.output@,
                    None,
                )
                &&& old(session).esc is AfterEsc ==> esc_step(
                    *old(session),
                    *final(session),
                    b,
                    r.output@,
                    None,
                )
                &&& old(session).esc is InCsi ==> csi_step(
                    *old(session),
                    *final(session),
                    b,
                    r.output@,
                    None,
                )
            }
        }),
{
    let outcome = session.feed_byte(b);
    match outcome.committed {
        Some(line) => {
            let done = process_line(&line);
            let mut output = outcome.echo;
            crate::command::push_chars(&mut output, &done.out);
            proof {
                assert(output@ =~= done.out@);
            }
            StepOutcome { output, reprogram: done.reprogram }
        },
        None => StepOutcome { output: outcome.echo, reprogram: None },
    }
}

} // verus!
