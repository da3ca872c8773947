//! Events of a run and the sinks that receive them.
use vstd::prelude::*;
use crate::error::AppError;
use crate::text::{decimal, decimal_text, push_str};

verus! {

/// How far a long step has come.
#[derive(Debug, Clone)]
pub struct ProgressInfo {
    pub current: u64,
    pub total: Option<u64>,
    pub message: String,
}

/// What a run reports, in the order it happens. `Finished` comes last.
#[derive(Debug, Clone)]
pub enum StreamEvent {
    Token(String),
    Progress(ProgressInfo),
    Status(String),
    Error(String),
    Finished,
}

/// Receives the events of a run.
pub trait OutputStreamer {
    fn handle_event(&mut self, event: StreamEvent) -> Result<(), AppError>;

    fn finish(&mut self) -> Result<(), AppError>;
}

/// A sink that drops every event.
pub struct NullStreamer;

impl NullStreamer {
    pub fn new() -> NullStreamer {
        NullStreamer
    }
}

impl OutputStreamer for NullStreamer {
    fn handle_event(&mut self, event: StreamEvent) -> (r: Result<(), AppError>) {
        Ok(())
    }

    fn finish(&mut self) -> (r: Result<(), AppError>) {
        Ok(())
    }
}

/// A sink for a terminal: it turns each event into the text to write.
pub struct CliStreamer {
    pub show_progress: bool,
}

/// The control sequence that returns to the start of the line and clears it.
pub open spec fn clear_line_text() -> Seq<char> {
    seq!['\r', '\u{1b}', '[', 'K']
}

/// The text that a terminal sink writes for an event.
pub open spec fn rendered(show_progress: bool, event: StreamEvent) -> Seq<char> {
    let clear = if show_progress {
        clear_line_text()
    } else {
        Seq::empty()
    };
    match event {
        StreamEvent::Token(t) => clear + t@,
        StreamEvent::Progress(p) => if show_progress {
            clear + seq!['\r', '\u{23f3}', ' '] + p.message@ + " ("@ + decimal_text(
                p.current as nat,
            ) + match p.total {
                Some(t) => seq!['/'] + decimal_text(t as nat),
                None => Seq::empty(),
            } + ")"@
        } else {
            Seq::empty()
        },
        StreamEvent::Status(s) => if show_progress {
            clear + seq!['\r', '\u{1f4ac}', ' '] + s@ + "\n"@
        } else {
            Seq::empty()
        },
        StreamEvent::Error(e) => clear + "\rError: "@ + e@ + "\n"@,
        StreamEvent::Finished => clear + "\n"@,
    }
}

impl CliStreamer {
    pub fn new(new_show_progress: bool) -> (r: CliStreamer)
        ensures
            r.show_progress == new_show_progress,
    {
        CliStreamer { show_progress: new_show_progress }
    }

    /// The text to write for an event.
    pub fn render(&self, event: &StreamEvent) -> (r: String)
        ensures
            r@ == rendered(self.show_progress, *event),
    {
        proof {
            reveal_strlit(" (");
            reveal_strlit(")");
            reveal_strlit("\n");
            reveal_strlit("\rError: ");
        }
        let mut r = String::new();
        let clear = self.show_progress;
        match event {
            StreamEvent::Token(t) => {
                if clear {
                    push_str(&mut r, "\r\x1b[K");
                }
                push_str(&mut r, t.as_str());
            },
            StreamEvent::Progress(p) => {
                if clear {
                    push_str(&mut r, "\r\x1b[K");
                    push_str(&mut r, "\r\u{23f3} ");
                    push_str(&mut r, p.message.as_str());
                    push_str(&mut r, " (");
                    push_str(&mut r, decimal(p.current).as_str());
                    match p.total {
                        Some(t) => {
                            push_str(&mut r, "/");
                            push_str(&mut r, decimal(t).as_str());
                        },
                        None => {},
                    }
                    push_str(&mut r, ")");
                }
            },
            StreamEvent::Status(s) => {
                if clear {
                    push_str(&mut r, "\r\x1b[K");
                    push_str(&mut r, "\r\u{1f4ac} ");
                    push_str(&mut r, s.as_str());
                    push_str(&mut r, "\n");
                }
            },
            StreamEvent::Error(e) => {
                if clear {
                    push_str(&mut r, "\r\x1b[K");
                }
                push_str(&mut r, "\rError: ");
                push_str(&mut r, e.as_str());
                push_str(&mut r, "\n");
            },
            StreamEvent::Finished => {
                if clear {
                    push_str(&mut r, "\r\x1b[K");
                }
                push_str(&mut r, "\n");
            },
        }
        proof {
            reveal_strlit("\r\x1b[K");
            reveal_strlit("\r\u{23f3} ");
            reveal_strlit("\r\u{1f4ac} ");
            reveal_strlit("/");
            assert("\r\x1b[K"@ =~= clear_line_text());
            assert("\r\u{23f3} "@ =~= seq!['\r', '\u{23f3}', ' ']);
            assert("\r\u{1f4ac} "@ =~= seq!['\r', '\u{1f4ac}', ' ']);
            assert("/"@ =~= seq!['/']);
            assert(Seq::<char>::empty() + r@ =~= r@);
        }
        assert(r@ =~= rendered(self.show_progress, *event));
        r
    }
}

pub fn create_cli_streamer(show_progress: bool) -> (r: CliStreamer)
    ensures
        r.show_progress == show_progress,
{
    CliStreamer::new(show_progress)
}

} // verus!
