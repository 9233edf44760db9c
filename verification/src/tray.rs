//! Tray-side text handling: the status title shown in the tray menu, and
//! the errors of tray setup. The tray icon itself is OS glue and lives
//! with the caller.

use vstd::prelude::*;

verus! {

/// Failure to build the tray icon or to operate its menu; the caller
/// performs the tray calls and hands their failure text over.
#[derive(Debug, Clone)]
pub enum TrayError {
    Creation(String),
    Menu(String),
}

impl TrayError {
    /// The wrapped failure text.
    pub open spec fn detail_view(self) -> Seq<char> {
        match self {
            TrayError::Creation(detail) => detail@,
            TrayError::Menu(detail) => detail@,
        }
    }

    /// Human-readable description of the error.
    pub fn message(&self) -> (r: String)
        ensures
            self matches TrayError::Creation(_) ==> r@ == "Tray icon creation failed: "@
                + self.detail_view(),
            self matches TrayError::Menu(_) ==> r@ == "Menu operation failed: "@
                + self.detail_view(),
    {
        match self {
            TrayError::Creation(detail) => {
                let mut out = String::from_str("Tray icon creation failed: ");
                out.append(detail.as_str());
                out
            },
            TrayError::Menu(detail) => {
                let mut out = String::from_str("Menu operation failed: ");
                out.append(detail.as_str());
                out
            },
        }
    }
}

/// A title shortened to at most `max_chars` characters: left whole when it
/// fits, else cut to `max_chars - 3` characters with an ellipsis appended.
pub open spec fn truncated_title(s: Seq<char>, max_chars: int) -> Seq<char> {
    if s.len() <= max_chars {
        s
    } else {
        let keep = if max_chars >= 3 {
            max_chars - 3
        } else {
            0
        };
        s.subrange(0, keep) + "..."@
    }
}

/// Shorten a window title for the tray menu, counting characters rather
/// than bytes so multi-byte text is never cut mid-character.
pub fn truncate_title(s: &str, max_chars: usize) -> (r: String)
    ensures
        r@ == truncated_title(s@, max_chars as int),
{
    let n = s.unicode_len();
    if n <= max_chars {
        s.to_owned()
    } else {
        let keep: usize = if max_chars >= 3 {
            max_chars - 3
        } else {
            0
        };
        let prefix = s.substring_char(0, keep);
        let mut out = prefix.to_owned();
        out.append("...");
        out
    }
}

} // verus!
