use colored::Colorize;
use crate::metrics::is_escape;
use crate::metrics::is_measurable;
use crate::metrics::is_param_char;
use crate::metrics::lemma_only_styling_shows_nothing;
use crate::metrics::lemma_param_run_is;
use crate::metrics::lemma_styled_concat;
use crate::metrics::lemma_styling_len_prefix;
use crate::metrics::only_styling;
use crate::metrics::param_run;
use crate::metrics::shown_part;
use crate::metrics::styling_len;
use crate::metrics::visible_width_spec;
use crate::metrics::well_styled;
use crate::scan::has_prefix;
use vstd::prelude::*;

verus! {

/// The sequence that switches bold blue on.
pub open spec fn style_on() -> Seq<char> {
    seq!['\u{1b}', '[', '1', ';', '3', '4', 'm']
}

/// The sequence that switches all styling off.
pub open spec fn style_off() -> Seq<char> {
    seq!['\u{1b}', '[', '0', 'm']
}

/// Text without an escape character.
pub open spec fn escape_free(s: Seq<char>) -> bool {
    forall|i: int| 0 <= i < s.len() ==> !is_escape(#[trigger] s[i])
}

/// The text with bold blue switched on again behind every sequence in it
/// that switches styling off, so that the style lasts to the end of the text.
pub open spec fn restyled(text: Seq<char>) -> Seq<char>
    decreases text.len(),
{
    if text.len() == 0 {
        text
    } else if has_prefix(text, style_off()) {
        style_off() + style_on() + restyled(text.skip(style_off().len() as int))
    } else {
        seq![text[0]] + restyled(text.drop_first())
    }
}

/// What is known of styled text whether colours are in use or not: the text
/// comes back as it is, or restyled between the sequence that switches bold
/// blue on and the one that switches styling off.
pub open spec fn is_painting_of(painted: Seq<char>, text: Seq<char>) -> bool {
    painted == text || painted == style_on() + restyled(text) + style_off()
}

/// Calls `colored`'s `blue().bold()` on the text and formats the result.
/// Whether colours are in use depends on the environment, so the result is
/// not named. The crate writes either the text alone, or `ESC[1;34m`, the text
/// and `ESC[0m`; in the second case it repeats `ESC[1;34m` behind every
/// `ESC[0m` that the text holds.
#[verifier::external_body]
pub(crate) fn paint(text: &str) -> (painted: String)
    ensures
        painted@ == text@ || painted@ == style_on() + restyled(text@) + style_off(),
{
    text.blue().bold().to_string()
}

/// The two sequences that painting adds are styling sequences: they show
/// nothing, and after each of them text is read as if it stood alone.
pub proof fn lemma_style_sequences()
    ensures
        well_styled(style_on()),
        shown_part(style_on()) == Seq::<char>::empty(),
        well_styled(style_off()),
        shown_part(style_off()) == Seq::<char>::empty(),
{
    let on = style_on();
    lemma_param_run_is(on.skip(2), 4);
    assert(on.skip(7) =~= Seq::<char>::empty());
    assert(only_styling(on.skip(7)));
    lemma_only_styling_shows_nothing(on);
    let off = style_off();
    lemma_param_run_is(off.skip(2), 1);
    assert(off.skip(4) =~= Seq::<char>::empty());
    lemma_only_styling_shows_nothing(off);
}

/// Text that does not begin with an escape character does not begin with the
/// sequence that switches styling off.
pub proof fn lemma_no_reset_without_escape(text: Seq<char>)
    requires
        text.len() > 0,
        !is_escape(text[0]),
    ensures
        !has_prefix(text, style_off()),
{
    if has_prefix(text, style_off()) {
        assert(text.take(style_off().len() as int)[0] == style_off()[0]);
    }
}

/// Restyling passes over text without an escape character and leaves it as it
/// is.
pub proof fn lemma_restyled_prefix(head: Seq<char>, rest: Seq<char>)
    requires
        escape_free(head),
    ensures
        restyled(head + rest) == head + restyled(rest),
    decreases head.len(),
{
    if head.len() > 0 {
        let all = head + rest;
        lemma_no_reset_without_escape(all);
        assert(all.drop_first() =~= head.drop_first() + rest);
        lemma_restyled_prefix(head.drop_first(), rest);
    }
}

/// Text without an escape character is not changed by restyling.
pub proof fn lemma_restyled_escape_free(text: Seq<char>)
    requires
        escape_free(text),
    ensures
        restyled(text) == text,
{
    lemma_restyled_prefix(text, Seq::<char>::empty());
}

/// The characters of a run of parameter characters are parameter characters,
/// and the character behind the run is none.
pub proof fn lemma_param_run_chars(s: Seq<char>)
    ensures
        param_run(s) <= s.len(),
        forall|i: int| 0 <= i < param_run(s) ==> is_param_char(#[trigger] s[i]),
        param_run(s) < s.len() ==> !is_param_char(s[param_run(s) as int]),
    decreases s.len(),
{
    if s.len() > 0 && is_param_char(s[0]) {
        let t = s.drop_first();
        lemma_param_run_chars(t);
        assert forall|i: int| 0 <= i < param_run(s) implies is_param_char(#[trigger] s[i]) by {
            if i > 0 {
                assert(s[i] == t[i - 1]);
            }
        }
    }
}

/// Restyling leaves a styling sequence at the head of the text in place,
/// unless it is the sequence that switches styling off.
pub proof fn lemma_restyled_sequence(text: Seq<char>)
    requires
        styling_len(text) > 0,
        !has_prefix(text, style_off()),
    ensures
        styling_len(text) <= text.len(),
        styling_len(text.take(styling_len(text) as int)) == styling_len(text),
        restyled(text) == text.take(styling_len(text) as int) + restyled(
            text.skip(styling_len(text) as int),
        ),
{
    let n = styling_len(text);
    let k = param_run(text.skip(2));
    lemma_param_run_chars(text.skip(2));
    let head = text.take(n as int);
    let rest = text.skip(n as int);
    assert(head.skip(2) =~= text.skip(2).take(k as int + 1));
    lemma_param_run_is(head.skip(2), k);
    let inner = text.subrange(1, n as int);
    assert forall|i: int| 0 <= i < inner.len() implies !is_escape(#[trigger] inner[i]) by {
        if 1 <= i < inner.len() - 1 {
            assert(inner[i] == text.skip(2)[i - 1]);
        }
    }
    assert(text.drop_first() =~= inner + rest);
    lemma_restyled_prefix(inner, rest);
}

/// Restyling changes neither whether text is well styled nor what it shows.
pub proof fn lemma_restyled_shows_the_same(text: Seq<char>)
    requires
        well_styled(text),
    ensures
        well_styled(restyled(text)),
        shown_part(restyled(text)) == shown_part(text),
    decreases text.len(),
{
    if text.len() == 0 {
        assert(restyled(text) == text);
    } else if is_escape(text[0]) {
        let n = styling_len(text);
        let rest = text.skip(n as int);
        lemma_restyled_shows_the_same(rest);
        if has_prefix(text, style_off()) {
            let off = style_off();
            lemma_param_run_is(text.skip(2), 1);
            lemma_style_sequences();
            lemma_styled_concat(style_on(), restyled(rest));
            lemma_styled_concat(off, style_on() + restyled(rest));
            assert(off + style_on() + restyled(rest) =~= off + (style_on() + restyled(rest)));
        } else {
            lemma_restyled_sequence(text);
            let head = text.take(n as int);
            lemma_styling_len_prefix(head, restyled(rest));
            assert((head + restyled(rest)).skip(n as int) =~= restyled(rest));
        }
    } else {
        let rest = text.drop_first();
        lemma_restyled_shows_the_same(rest);
        lemma_no_reset_without_escape(text);
        let again = seq![text[0]] + restyled(rest);
        assert(again.drop_first() =~= restyled(rest));
    }
}

/// Painting changes neither what measurable text shows nor its width.
pub proof fn lemma_painting(painted: Seq<char>, text: Seq<char>)
    requires
        is_painting_of(painted, text),
        is_measurable(text),
    ensures
        is_measurable(painted),
        shown_part(painted) == shown_part(text),
        visible_width_spec(painted) == visible_width_spec(text),
{
    if painted != text {
        lemma_restyled_shows_the_same(text);
        lemma_style_sequences();
        lemma_styled_concat(style_on(), restyled(text));
        lemma_styled_concat(style_on() + restyled(text), style_off());
    }
}

} // verus!
