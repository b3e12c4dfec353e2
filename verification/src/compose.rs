//! The compositor: pairs the art queue with the module sequence, line
//! by line, and yields the full banner. The queue starts with a blank
//! padding row as wide (visibly) as the art, so the art column sits
//! under the title row; a module beyond the end of the queue gets a
//! fresh blank row of the same width, while art beyond the last module
//! is discarded.
use vstd::prelude::*;

use crate::art::art_rows;
use crate::art::spec_art_rows;
use crate::config::Config;
use crate::facts::Facts;
use crate::modules::Module;
use crate::palette::BASIC_BASE;
use crate::palette::BLUE;
use crate::palette::BRIGHT_BASE;
use crate::palette::GREEN;
use crate::palette::RED;
use crate::palette::YELLOW;
use crate::text::lemma_repeat_visible_len;
use crate::text::lemma_strip_concat;
use crate::text::lemma_strip_paint;
use crate::text::lemma_strip_plain;
use crate::text::paint;
use crate::text::spaces;
use crate::text::spec_paint;
use crate::text::spec_plain;
use crate::text::spec_repeat;
use crate::text::spec_visible_len;
use crate::text::visible_width;

verus! {

/// The padding width: the visible width of the first art row, measured
/// on the de-colourised text.
pub open spec fn spec_pad() -> nat {
    spec_visible_len(spec_art_rows()[0])
}

/// The blank row that stands in for art: as wide, visibly, as the art.
pub open spec fn spec_blank_pad() -> Seq<char> {
    spec_repeat(' ', spec_pad())
}

/// The art queue as consumed from the front: the blank padding row,
/// then the five art rows.
pub open spec fn spec_art_queue() -> Seq<Seq<char>> {
    seq![spec_blank_pad()] + spec_art_rows()
}

/// The first art row shows six plain columns and two five-column
/// painted pieces, so the padding width is sixteen.
pub proof fn lemma_pad_value()
    ensures
        spec_pad() == 16,
{
    reveal_strlit("      ");
    reveal_strlit(" _.-;");
    reveal_strlit(";-._ ");
    let a = "      "@;
    let lb = " _.-;"@;
    let lc = ";-._ "@;
    let b = spec_paint(RED as nat, lb);
    let c = spec_paint(GREEN as nat, lc);
    assert(spec_plain(a));
    assert(spec_plain(lb));
    assert(spec_plain(lc));
    lemma_strip_plain(a);
    lemma_strip_plain(lb);
    lemma_strip_plain(lc);
    lemma_strip_paint(RED as nat, lb);
    lemma_strip_paint(GREEN as nat, lc);
    lemma_strip_concat(a, b, false);
    lemma_strip_concat(a + b, c, false);
    assert(spec_art_rows()[0] == (a + b) + c);
    assert(spec_visible_len((a + b) + c) == 16);
}

/// The line printed for the module at position `i`: a two-space margin,
/// the art row at the same position (or a blank padding row when the
/// queue is exhausted), two more spaces, and the module's rendered
/// line.
pub open spec fn spec_composed_line(m: Module, facts: Facts, i: int) -> Seq<char> {
    let art = if 0 <= i < spec_art_queue().len() {
        spec_art_queue()[i]
    } else {
        spec_blank_pad()
    };
    "  "@ + art + "  "@ + m.spec_display(facts)
}

/// Every module beyond the art queue pairs with a blank padding row of
/// exactly the art's visible width, and its rendered text still stands
/// whole at the end of the line: nothing is cut off and nothing
/// panics.
pub proof fn lemma_excess_module_blank_pad(m: Module, facts: Facts, i: int)
    requires
        i >= spec_art_queue().len(),
    ensures
        spec_composed_line(m, facts, i) == "  "@ + spec_blank_pad() + "  "@ + m.spec_display(
            facts,
        ),
        spec_visible_len(spec_blank_pad()) == spec_pad(),
        spec_pad() == spec_visible_len(spec_art_rows()[0]),
{
    lemma_repeat_visible_len(' ', spec_pad());
}

/// Composes one line per module, in order: art (or blank padding) on
/// the left, the module's line on the right, two spaces between and a
/// two-space left margin.
pub fn compose_lines(config: &Config, facts: &Facts) -> (r: Vec<String>)
    ensures
        r@.len() == config.modules@.len(),
        forall|i: int|
            0 <= i < r@.len() ==> r@[i]@ == spec_composed_line(config.modules@[i], *facts, i),
{
    let rows = art_rows();
    let pad = visible_width(rows[0].as_str());
    let mut queue = rows;
    let blank = spaces(pad);
    queue.insert(0, blank);
    proof {
        assert(queue@.drop_first() =~= queue@.subrange(1, queue@.len() as int));
        assert forall|j: int| 0 <= j < queue@.len() implies queue@[j]@ == spec_art_queue()[j] by {
            if j == 0 {
            } else {
                assert(spec_art_queue()[j] == spec_art_rows()[j - 1]);
            }
        }
    }
    let mut r: Vec<String> = Vec::new();
    let n = config.modules.len();
    let mut i: usize = 0;
    while i < n
        invariant
            0 <= i <= n,
            n == config.modules@.len(),
            r@.len() == i,
            pad as nat == spec_pad(),
            queue@.len() == spec_art_queue().len(),
            forall|j: int| 0 <= j < queue@.len() ==> queue@[j]@ == spec_art_queue()[j],
            forall|j: int|
                0 <= j < i ==> r@[j]@ == spec_composed_line(config.modules@[j], *facts, j),
        decreases n - i,
    {
        let mut line = String::from_str("  ");
        if i < queue.len() {
            line.append(queue[i].as_str());
        } else {
            let fresh_blank = spaces(pad);
            line.append(fresh_blank.as_str());
        }
        line.append("  ");
        let rendered = config.modules[i].display(facts);
        line.append(rendered.as_str());
        proof {
            assert(line@ =~= spec_composed_line(config.modules@[i as int], *facts, i as int));
        }
        r.push(line);
        i = i + 1;
    }
    r
}

/// One colour-swatch row: leading blanks four columns past the padding
/// width, then eight four-column blocks, one per colour from `base`
/// upward.
pub open spec fn spec_swatch_row(base: nat) -> Seq<char> {
    spec_repeat(' ', spec_pad() + 4) + spec_paint(base, "████"@) + spec_paint(base + 1, "████"@)
        + spec_paint(base + 2, "████"@) + spec_paint(base + 3, "████"@) + spec_paint(
        base + 4,
        "████"@,
    ) + spec_paint(base + 5, "████"@) + spec_paint(base + 6, "████"@) + spec_paint(
        base + 7,
        "████"@,
    )
}

/// Renders one colour-swatch row.
fn swatch_row(base: u64) -> (r: String)
    requires
        base <= 90,
    ensures
        r@ == spec_swatch_row(base as nat),
{
    proof {
        lemma_pad_value();
    }
    let mut r = spaces(20);
    let mut k: u64 = 0;
    while k < 8
        invariant
            base <= 90,
            0 <= k <= 8,
            r@ == spec_repeat(' ', spec_pad() + 4) + spec_swatch_blocks(base as nat, k as nat),
        decreases 8 - k,
    {
        let block = paint(base + k, "████");
        r.append(block.as_str());
        proof {
            assert(spec_swatch_blocks(base as nat, (k + 1) as nat) =~= spec_swatch_blocks(
                base as nat,
                k as nat,
            ) + spec_paint((base + k) as nat, "████"@));
            assert(r@ =~= spec_repeat(' ', spec_pad() + 4) + spec_swatch_blocks(
                base as nat,
                (k + 1) as nat,
            ));
        }
        k = k + 1;
    }
    proof {
        reveal_with_fuel(spec_swatch_blocks, 9);
        assert(r@ =~= spec_swatch_row(base as nat));
    }
    r
}

/// The first `k` four-column colour blocks of a swatch row from `base`.
pub open spec fn spec_swatch_blocks(base: nat, k: nat) -> Seq<char>
    decreases k,
{
    if k == 0 {
        Seq::<char>::empty()
    } else {
        spec_swatch_blocks(base, (k - 1) as nat) + spec_paint((base + k - 1) as nat, "████"@)
    }
}

/// The whole banner: a blank line, one composed line per module in
/// order, a blank line, the basic and bright colour-swatch rows, and a
/// final blank line.
pub open spec fn spec_banner_lines(ms: Seq<Module>, facts: Facts) -> Seq<Seq<char>> {
    seq![Seq::<char>::empty()] + Seq::new(ms.len(), |i: int| spec_composed_line(ms[i], facts, i))
        + seq![
        Seq::<char>::empty(),
        spec_swatch_row(BASIC_BASE as nat),
        spec_swatch_row(BRIGHT_BASE as nat),
        Seq::<char>::empty(),
    ]
}

/// Renders the whole banner, one string per printed line.
pub fn banner_lines(config: &Config, facts: &Facts) -> (r: Vec<String>)
    ensures
        r@.len() == config.modules@.len() + 5,
        forall|i: int|
            0 <= i < r@.len() ==> r@[i]@ == spec_banner_lines(config.modules@, *facts)[i],
{
    let ghost ms = config.modules@;
    let mut r: Vec<String> = Vec::new();
    r.push(String::new());
    let mut lines = compose_lines(config, facts);
    let ghost lv = lines@;
    r.append(&mut lines);
    r.push(String::new());
    r.push(swatch_row(BASIC_BASE));
    r.push(swatch_row(BRIGHT_BASE));
    r.push(String::new());
    proof {
        let sb = spec_banner_lines(ms, *facts);
        let mid = Seq::new(ms.len(), |i: int| spec_composed_line(ms[i], *facts, i));
        let n = ms.len() as int;
        assert(sb.len() == n + 5);
        assert forall|i: int| 0 <= i < r@.len() implies r@[i]@ == sb[i] by {
            if i == 0 {
                assert(sb[0] == Seq::<char>::empty());
            } else if i <= n {
                assert(r@[i] == lv[i - 1]);
                assert(sb[i] == mid[i - 1]);
            } else {
                assert(sb[i] == seq![
                    Seq::<char>::empty(),
                    spec_swatch_row(BASIC_BASE as nat),
                    spec_swatch_row(BRIGHT_BASE as nat),
                    Seq::<char>::empty(),
                ][i - n - 1]);
            }
        }
    }
    r
}

} // verus!
