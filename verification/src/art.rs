//! The art generator: a fixed five-row decorative glyph, each row made
//! of a plain left margin piece and two painted pieces, plus the blank
//! padding row that aligns the art column under the title row. Padding
//! width is measured on the de-colourised text: colour control
//! sequences have zero visible width.
use vstd::prelude::*;

use crate::palette::BLUE;
use crate::palette::GREEN;
use crate::palette::RED;
use crate::palette::YELLOW;
use crate::text::paint;
use crate::text::spec_paint;

verus! {

/// The five art rows, colours embedded.
pub open spec fn spec_art_rows() -> Seq<Seq<char>> {
    seq![
        "      "@ + spec_paint(RED as nat, " _.-;"@) + spec_paint(GREEN as nat, ";-._ "@),
        "'-..-'"@ + spec_paint(RED as nat, "|   |"@) + spec_paint(GREEN as nat, "|   |"@),
        "'-..-'"@ + spec_paint(RED as nat, "|_.-;"@) + spec_paint(GREEN as nat, ";-._|"@),
        "'-..-'"@ + spec_paint(BLUE as nat, "|   |"@) + spec_paint(YELLOW as nat, "|   |"@),
        "'-..-'"@ + spec_paint(BLUE as nat, "|_.-'"@) + spec_paint(YELLOW as nat, "'-._|"@),
    ]
}

/// One art row: the plain piece, then the two painted pieces.
fn art_row(plain: &str, left_code: u64, left: &str, right_code: u64, right: &str) -> (r: String)
    ensures
        r@ == plain@ + spec_paint(left_code as nat, left@) + spec_paint(right_code as nat, right@),
{
    let mut r = String::from_str(plain);
    let l = paint(left_code, left);
    r.append(l.as_str());
    let g = paint(right_code, right);
    r.append(g.as_str());
    proof {
        assert(r@ =~= plain@ + spec_paint(left_code as nat, left@) + spec_paint(
            right_code as nat,
            right@,
        ));
    }
    r
}

/// Builds the five art rows.
pub fn art_rows() -> (r: Vec<String>)
    ensures
        r@.len() == spec_art_rows().len(),
        forall|i: int| 0 <= i < r@.len() ==> r@[i]@ == spec_art_rows()[i],
{
    let mut r: Vec<String> = Vec::new();
    r.push(art_row("      ", RED, " _.-;", GREEN, ";-._ "));
    r.push(art_row("'-..-'", RED, "|   |", GREEN, "|   |"));
    r.push(art_row("'-..-'", RED, "|_.-;", GREEN, ";-._|"));
    r.push(art_row("'-..-'", BLUE, "|   |", YELLOW, "|   |"));
    r.push(art_row("'-..-'", BLUE, "|_.-'", YELLOW, "'-._|"));
    r
}

} // verus!
