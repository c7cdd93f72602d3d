use crate::metrics::char_width;
use crate::metrics::char_width_spec;
use crate::metrics::larger;
use crate::metrics::max_visible_width;
use crate::metrics::visible_width;
use crate::metrics::visible_width_spec;
use crate::metrics::widest;
use crate::text::from_chars;
use crate::text::texts;
use crate::text::to_chars;
use vstd::prelude::*;

verus! {

/// The columns kept free between the art and the information beside it when
/// the art is cropped.
pub const CROP_PADDING: usize = 4;

/// The width of the widest information line, measured as label, value and
/// two cells between them; 0 where there is no line.
pub open spec fn info_width(info: Seq<(String, String)>) -> nat
    decreases info.len(),
{
    if info.len() == 0 {
        0
    } else {
        larger(
            info_width(info.drop_last()),
            visible_width_spec(info.last().0@) + visible_width_spec(info.last().1@) + 2,
        )
    }
}

/// The columns that are left for the art beside information of the given
/// width, 0 where nothing is left.
pub open spec fn crop_budget(info_w: nat, terminal_width: nat) -> nat {
    if terminal_width > info_w + CROP_PADDING {
        (terminal_width - info_w - CROP_PADDING) as nat
    } else {
        0
    }
}

/// The sum of the widths of the characters of a text, each measured alone.
pub open spec fn char_width_sum(s: Seq<char>) -> nat
    decreases s.len(),
{
    if s.len() == 0 {
        0
    } else {
        char_width_sum(s.drop_last()) + char_width_spec(s.last())
    }
}

/// How many characters from the head of `s` fit in `room` columns: counting
/// stops at the first character that no longer fits.
pub open spec fn fitting_len(s: Seq<char>, room: nat) -> nat
    decreases s.len(),
{
    if s.len() == 0 || char_width_spec(s[0]) > room {
        0
    } else {
        1 + fitting_len(s.drop_first(), (room - char_width_spec(s[0])) as nat)
    }
}

/// A line cut to the given room: unchanged where it is not wider than the
/// room, else its longest head whose characters fit.
pub open spec fn cropped_line(line: Seq<char>, room: nat) -> Seq<char> {
    if visible_width_spec(line) > room {
        line.take(fitting_len(line, room) as int)
    } else {
        line
    }
}

/// The art as it is laid out beside the information: unchanged where both fit
/// in the terminal, else cropped line by line to the room that is left, and
/// dropped where no room is left.
pub open spec fn cropped_art(
    art: Seq<Seq<char>>,
    info: Seq<(String, String)>,
    terminal_width: nat,
) -> Seq<Seq<char>> {
    let room = crop_budget(info_width(info), terminal_width);
    if widest(art) + CROP_PADDING + info_width(info) <= terminal_width {
        art
    } else if room > 0 {
        Seq::new(art.len(), |i: int| cropped_line(art[i], room))
    } else {
        Seq::<Seq<char>>::empty()
    }
}

/// The head that fits is no longer than the text, and its characters take no
/// more than the room.
pub proof fn lemma_fitting_len(s: Seq<char>, room: nat)
    ensures
        fitting_len(s, room) <= s.len(),
        char_width_sum(s.take(fitting_len(s, room) as int)) <= room,
        fitting_len(s, room) < s.len() ==> char_width_sum(
            s.take(fitting_len(s, room) as int + 1),
        ) > room,
    decreases s.len(),
{
    if s.len() > 0 && char_width_spec(s[0]) <= room {
        let rest = s.drop_first();
        let left = (room - char_width_spec(s[0])) as nat;
        let n = fitting_len(rest, left);
        lemma_fitting_len(rest, left);
        lemma_char_width_sum_front(s.take(n as int + 1));
        assert(s.take(n as int + 1).drop_first() =~= rest.take(n as int));
        if n < rest.len() {
            lemma_char_width_sum_front(s.take(n as int + 2));
            assert(s.take(n as int + 2).drop_first() =~= rest.take(n as int + 1));
        }
    }
}

/// The sum of character widths can be taken from the front as well.
pub proof fn lemma_char_width_sum_front(s: Seq<char>)
    requires
        s.len() > 0,
    ensures
        char_width_sum(s) == char_width_spec(s[0]) + char_width_sum(s.drop_first()),
    decreases s.len(),
{
    if s.len() == 1 {
        assert(s.drop_last() =~= s.drop_first());
    } else {
        lemma_char_width_sum_front(s.drop_last());
        assert(s.drop_last().drop_first() =~= s.drop_first().drop_last());
    }
}

/// Fits the art to a height: the art itself where it has at most `max_height`
/// lines, else its first `max_height` lines.
pub fn format_ascii_art_for_display(ascii_art: &[String], max_height: usize) -> (fitted: Vec<
    String,
>)
    ensures
        ascii_art@.len() <= max_height ==> fitted@ == ascii_art@,
        ascii_art@.len() > max_height ==> fitted@ == ascii_art@.take(max_height as int),
{
    let height = if ascii_art.len() <= max_height {
        ascii_art.len()
    } else {
        max_height
    };
    let mut fitted: Vec<String> = Vec::new();
    let mut i: usize = 0;
    while i < height
        invariant
            i <= height <= ascii_art.len(),
            fitted@ == ascii_art@.take(i as int),
        decreases height - i,
    {
        fitted.push(ascii_art[i].clone());
        i += 1;
    }
    fitted
}

/// The width of the widest information line: label, value and two cells
/// between them.
pub fn max_info_width(info: &[(String, String)]) -> (w: u128)
    ensures
        w as nat == info_width(info@),
        w <= 2 * usize::MAX + 2,
{
    let mut w: u128 = 0;
    let mut i: usize = 0;
    while i < info.len()
        invariant
            i <= info.len(),
            w as nat == info_width(info@.take(i as int)),
            w <= 2 * usize::MAX + 2,
        decreases info.len() - i,
    {
        let label_width = visible_width(info[i].0.as_str());
        let value_width = visible_width(info[i].1.as_str());
        let width: u128 = label_width as u128 + value_width as u128 + 2;
        assert(info@.take(i + 1).drop_last() =~= info@.take(i as int));
        if width > w {
            w = width;
        }
        i += 1;
    }
    assert(info@.take(info@.len() as int) =~= info@);
    w
}

/// Cuts a line to the given room: the line itself where it is not wider than
/// the room, else its longest head whose characters, each measured alone, fit.
pub fn crop_line(line: &str, room: usize) -> (cut: String)
    ensures
        cut@ == cropped_line(line@, room as nat),
        visible_width_spec(line@) > room ==> char_width_sum(cut@) <= room,
{
    proof {
        lemma_fitting_len(line@, room as nat);
    }
    if visible_width(line) > room {
        let chars = to_chars(line);
        let mut used: usize = 0;
        let mut n: usize = 0;
        let mut fits = true;
        assert(line@.skip(0) =~= line@);
        while fits && n < chars.len()
            invariant
                n <= chars.len(),
                used <= room,
                chars@ == line@,
                n + fitting_len(line@.skip(n as int), (room - used) as nat) == fitting_len(
                    line@,
                    room as nat,
                ),
                !fits ==> fitting_len(line@.skip(n as int), (room - used) as nat) == 0,
            decreases chars.len() - n + (if fits { 1nat } else { 0nat }),
        {
            let width = char_width(chars[n]);
            assert(line@.skip(n as int).drop_first() =~= line@.skip(n + 1));
            if width > room - used {
                fits = false;
            } else {
                used = used + width;
                n += 1;
            }
        }
        let cut = from_chars(vstd::slice::slice_subrange(chars.as_slice(), 0, n));
        cut
    } else {
        let cut = line.to_owned();
        cut
    }
}

/// Lays the art out beside the information. Where the art, four columns of
/// padding and the widest information line fit in the terminal together, the
/// art is returned as it is. Otherwise each line wider than the room that is
/// left is cut to it, and where no room is left the art is dropped. The second
/// list is always empty.
pub fn calculate_layout(
    ascii_art: &[String],
    info_lines: &[(String, String)],
    terminal_width: usize,
) -> (layout: (Vec<String>, Vec<String>))
    ensures
        texts(layout.0@) == cropped_art(texts(ascii_art@), info_lines@, terminal_width as nat),
        layout.1@.len() == 0,
{
    let art_width = max_visible_width(ascii_art);
    let info_w = max_info_width(info_lines);
    let needed: u128 = art_width as u128 + CROP_PADDING as u128 + info_w;
    let mut cropped: Vec<String> = Vec::new();
    if needed <= terminal_width as u128 {
        let mut i: usize = 0;
        while i < ascii_art.len()
            invariant
                i <= ascii_art.len(),
                cropped@ == ascii_art@.take(i as int),
            decreases ascii_art.len() - i,
        {
            cropped.push(ascii_art[i].clone());
            i += 1;
        }
    } else if terminal_width as u128 > info_w + CROP_PADDING as u128 {
        let room: usize = (terminal_width as u128 - info_w - CROP_PADDING as u128) as usize;
        let ghost wanted = cropped_art(texts(ascii_art@), info_lines@, terminal_width as nat);
        let mut i: usize = 0;
        while i < ascii_art.len()
            invariant
                i <= ascii_art.len(),
                room as nat == crop_budget(info_width(info_lines@), terminal_width as nat),
                wanted == Seq::new(
                    texts(ascii_art@).len(),
                    |k: int| cropped_line(texts(ascii_art@)[k], room as nat),
                ),
                texts(cropped@) == wanted.take(i as int),
            decreases ascii_art.len() - i,
        {
            let ghost before = texts(cropped@);
            let cut = crop_line(ascii_art[i].as_str(), room);
            cropped.push(cut);
            assert(texts(cropped@) =~= before.push(cut@));
            i += 1;
        }
    }
    (cropped, Vec::new())
}

} // verus!
