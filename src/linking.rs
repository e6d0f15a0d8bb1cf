//! Linking this gateway as a new Signal device: the decisions of the
//! bootstrap loop, and the terminal screen that shows the link as a QR code.
use vstd::prelude::*;

use crate::update::{Action, LinkingAction};

verus! {

/// What the bootstrap loop does after an event.
#[derive(Clone, Copy, Debug, PartialEq, Eq, Structural)]
pub enum LinkingStep {
    /// Draw the screen again and wait.
    Redraw,
    /// Ask the Signal service for a new link, then draw and wait.
    Relink,
    /// The device is linked: leave the bootstrap loop.
    Linked,
    /// Stop the program.
    Quit,
}

/// What the bootstrap loop does with `event`; a new URL replaces the shown one.
pub fn linking_step(url: &mut Option<String>, event: Option<Action>) -> (r: LinkingStep)
    ensures
        match event {
            Some(Action::Link(LinkingAction::Url(u))) => r == LinkingStep::Redraw && *final(url)
                == Some(u),
            Some(Action::Link(LinkingAction::Success)) => r == LinkingStep::Linked && *final(url)
                == *old(url),
            Some(Action::Link(LinkingAction::Fail)) => r == LinkingStep::Relink && *final(url)
                == *old(url),
            Some(Action::Quit) => r == LinkingStep::Quit && *final(url) == *old(url),
            _ => r == LinkingStep::Redraw && *final(url) == *old(url),
        },
{
    match event {
        Some(Action::Link(LinkingAction::Url(u))) => {
            *url = Some(u);
            LinkingStep::Redraw
        },
        Some(Action::Link(LinkingAction::Success)) => LinkingStep::Linked,
        Some(Action::Link(LinkingAction::Fail)) => LinkingStep::Relink,
        Some(Action::Quit) => LinkingStep::Quit,
        _ => LinkingStep::Redraw,
    }
}

/// The modules of the QR code for `text` (at least medium error correction),
/// row by row, dark as `true`; `None` when the text does not fit in one.
pub uninterp spec fn qr_grid(text: Seq<char>) -> Option<Seq<Seq<bool>>>;

/// The rows of a grid as sequences.
pub open spec fn grid_view(g: Seq<Vec<bool>>) -> Seq<Seq<bool>> {
    Seq::new(g.len(), |i: int| g[i]@)
}

/// Relies on qrcodegen's QrCode::encode_text with medium error correction
/// (raised when it fits at no cost), read back with size and get_module: the
/// symbol depends on the text alone, and it fails only on text too long.
#[verifier::external_body]
fn qr_modules(text: &str) -> (r: Option<Vec<Vec<bool>>>)
    ensures
        r is Some <==> qr_grid(text@) is Some,
        r matches Some(g) ==> grid_view(g@) == qr_grid(text@)->Some_0,
{
    let qr = qrcodegen::QrCode::encode_text(text, qrcodegen::QrCodeEcc::Medium).ok()?;
    let n = qr.size();
    Some((0..n).map(|y| (0..n).map(|x| qr.get_module(x, y)).collect()).collect())
}

/// One cell of the screen, two characters wide.
pub open spec fn block() -> Seq<char> {
    "\u{2588}\u{2588}"@
}

/// The terminal colour of a light cell.
pub open spec fn light() -> Seq<char> {
    "\x1b[37m"@
}

/// The terminal colour of a dark cell.
pub open spec fn dark() -> Seq<char> {
    "\x1b[30m"@
}

/// `k` cells side by side.
pub open spec fn blocks(k: nat) -> Seq<char>
    decreases k,
{
    if k == 0 {
        Seq::empty()
    } else {
        blocks((k - 1) as nat) + block()
    }
}

/// The cells of one row of modules, each in its colour.
pub open spec fn row_cells(r: Seq<bool>) -> Seq<char>
    decreases r.len(),
{
    if r.len() == 0 {
        Seq::empty()
    } else {
        row_cells(r.drop_last()) + (if r.last() {
            dark()
        } else {
            light()
        }) + block()
    }
}

/// One line of the code, with a light cell of quiet zone on each side.
pub open spec fn row_line(r: Seq<bool>) -> Seq<char> {
    light() + block() + row_cells(r) + light() + block() + seq!['\n']
}

/// The lines of all rows.
pub open spec fn row_lines(g: Seq<Seq<bool>>) -> Seq<char>
    decreases g.len(),
{
    if g.len() == 0 {
        Seq::empty()
    } else {
        row_lines(g.drop_last()) + row_line(g.last())
    }
}

/// A light line above and below the code.
pub open spec fn border_line(n: nat) -> Seq<char> {
    light() + blocks(n + 2) + seq!['\n']
}

/// The linking screen for `url`, given the QR modules of it.
pub open spec fn screen_text(url: Option<Seq<char>>, grid: Option<Seq<Seq<bool>>>) -> Seq<char> {
    match url {
        None => "Generating Linking Url ...\n"@,
        Some(u) => {
            let code = match grid {
                Some(g) => border_line(g.len()) + row_lines(g) + border_line(g.len()),
                None => "Error generating qrcode (tough shit pal)\n"@,
            };
            code + "Or visit the url like a caveman: "@ + u + seq!['\n']
        },
    }
}

fn blocks_string(k: usize) -> (r: String)
    ensures
        r@ == blocks(k as nat),
{
    let mut s = String::new();
    let mut i: usize = 0;
    while i < k
        invariant
            i <= k,
            s@ == blocks(i as nat),
        decreases k - i,
    {
        s.append("\u{2588}\u{2588}");
        i = i + 1;
    }
    s
}

fn row_string(r: &Vec<bool>) -> (s: String)
    ensures
        s@ == row_line(r@),
{
    let mut cells = String::new();
    let mut j: usize = 0;
    while j < r.len()
        invariant
            j <= r@.len(),
            cells@ == row_cells(r@.subrange(0, j as int)),
        decreases r@.len() - j,
    {
        if r[j] {
            cells.append("\x1b[30m");
        } else {
            cells.append("\x1b[37m");
        }
        cells.append("\u{2588}\u{2588}");
        proof {
            let next = r@.subrange(0, j + 1);
            assert(next.drop_last() =~= r@.subrange(0, j as int));
        }
        j = j + 1;
    }
    assert(r@.subrange(0, r@.len() as int) =~= r@);
    let mut s = "\x1b[37m".to_owned();
    s.append("\u{2588}\u{2588}");
    s.append(cells.as_str());
    s.append("\x1b[37m");
    s.append("\u{2588}\u{2588}");
    s.append("\n");
    proof {
        reveal_strlit("\n");
        assert(s@ =~= row_line(r@));
    }
    s
}

fn border_string(n: usize) -> (r: String)
    ensures
        r@ == border_line(n as nat),
{
    let mut s = "\x1b[37m".to_owned();
    s.append(blocks_string(n).as_str());
    s.append("\u{2588}\u{2588}");
    s.append("\u{2588}\u{2588}");
    s.append("\n");
    proof {
        reveal_strlit("\n");
        assert(blocks((n + 2) as nat) == blocks((n + 1) as nat) + block());
        assert(blocks((n + 1) as nat) == blocks(n as nat) + block());
        assert(s@ =~= border_line(n as nat));
    }
    s
}

/// The linking screen for `url`, given the QR modules of it.
pub fn linking_screen(url: &Option<String>, grid: &Option<Vec<Vec<bool>>>) -> (r: String)
    ensures
        r@ == screen_text(
            match url {
                Some(u) => Some(u@),
                None => None,
            },
            match grid {
                Some(g) => Some(grid_view(g@)),
                None => None,
            },
        ),
{
    match url {
        None => "Generating Linking Url ...\n".to_owned(),
        Some(u) => {
            let mut s = String::new();
            match grid {
                Some(g) => {
                    let n = g.len();
                    let ghost gv = grid_view(g@);
                    s.append(border_string(n).as_str());
                    let mut i: usize = 0;
                    while i < n
                        invariant
                            n == g@.len(),
                            gv == grid_view(g@),
                            i <= n,
                            s@ == border_line(n as nat) + row_lines(gv.subrange(0, i as int)),
                        decreases n - i,
                    {
                        s.append(row_string(&g[i]).as_str());
                        proof {
                            let next = gv.subrange(0, i + 1);
                            assert(next.drop_last() =~= gv.subrange(0, i as int));
                            assert(next.last() == g@[i as int]@);
                        }
                        i = i + 1;
                    }
                    assert(gv.subrange(0, n as int) =~= gv);
                    s.append(border_string(n).as_str());
                },
                None => {
                    s.append("Error generating qrcode (tough shit pal)\n");
                },
            }
            s.append("Or visit the url like a caveman: ");
            s.append(u.as_str());
            s.append("\n");
            proof {
                reveal_strlit("\n");
            }
            assert(s@ =~= screen_text(
                Some(u@),
                match grid {
                    Some(g) => Some(grid_view(g@)),
                    None => None,
                },
            ));
            s
        },
    }
}

/// Draws the linking screen for `url`: its QR code and the URL itself.
pub fn draw_linking_screen(url: &Option<String>) -> (r: String)
    ensures
        r@ == screen_text(
            match url {
                Some(u) => Some(u@),
                None => None,
            },
            match url {
                Some(u) => qr_grid(u@),
                None => None,
            },
        ),
{
    match url {
        Some(u) => {
            let grid = qr_modules(u.as_str());
            linking_screen(url, &grid)
        },
        None => linking_screen(url, &None),
    }
}

} // verus!
