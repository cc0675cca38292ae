//! The conversation transcript: user turns and model outputs, wrapped in the
//! instruction template and appended in chronological order.

use vstd::prelude::*;

verus! {

/// Whether `c` has the Unicode White_Space property, as `char::is_whitespace`
/// documents it.
pub open spec fn is_white_space(c: char) -> bool {
    let u = c as u32;
    (0x9 <= u <= 0xd) || u == 0x20 || u == 0x85 || u == 0xa0 || u == 0x1680 || (0x2000 <= u
        <= 0x200a) || u == 0x2028 || u == 0x2029 || u == 0x202f || u == 0x205f || u == 0x3000
}

/// `s` without its leading whitespace.
pub open spec fn trim_start(s: Seq<char>) -> Seq<char>
    decreases s.len(),
{
    if s.len() > 0 && is_white_space(s[0]) {
        trim_start(s.drop_first())
    } else {
        s
    }
}

/// `s` without its trailing whitespace.
pub open spec fn trim_end(s: Seq<char>) -> Seq<char>
    decreases s.len(),
{
    if s.len() > 0 && is_white_space(s.last()) {
        trim_end(s.drop_last())
    } else {
        s
    }
}

/// `s` without leading and trailing whitespace.
pub open spec fn trimmed(s: Seq<char>) -> Seq<char> {
    trim_end(trim_start(s))
}

/// Relies on `str::trim`: leading and trailing whitespace (Unicode
/// White_Space) removed, the rest kept as it is.
#[verifier::external_body]
pub(crate) fn trim_text(s: &str) -> (r: String)
    ensures
        r@ == trimmed(s@),
{
    s.trim().to_string()
}

/// What trimming leaves is a contiguous run of the original text, so it
/// holds no text that the original lacks.
pub proof fn lemma_trimmed_is_infix(s: Seq<char>)
    ensures
        exists|i: int, j: int| 0 <= i <= j <= s.len() && trimmed(s) == s.subrange(i, j),
{
    let i = lemma_trim_start_suffix(s);
    let t = trim_start(s);
    let j = lemma_trim_end_prefix(t);
    assert(trimmed(s) =~= s.subrange(i, i + j));
}

proof fn lemma_trim_start_suffix(s: Seq<char>) -> (i: int)
    ensures
        0 <= i <= s.len(),
        trim_start(s) == s.subrange(i, s.len() as int),
    decreases s.len(),
{
    if s.len() > 0 && is_white_space(s[0]) {
        let k = lemma_trim_start_suffix(s.drop_first());
        assert(s.drop_first().subrange(k, s.drop_first().len() as int) =~= s.subrange(
            k + 1,
            s.len() as int,
        ));
        k + 1
    } else {
        assert(s.subrange(0, s.len() as int) =~= s);
        0
    }
}

proof fn lemma_trim_end_prefix(s: Seq<char>) -> (j: int)
    ensures
        0 <= j <= s.len(),
        trim_end(s) == s.subrange(0, j),
    decreases s.len(),
{
    if s.len() > 0 && is_white_space(s.last()) {
        let k = lemma_trim_end_prefix(s.drop_last());
        assert(s.drop_last().subrange(0, k) =~= s.subrange(0, k));
        k
    } else {
        assert(s.subrange(0, s.len() as int) =~= s);
        s.len() as int
    }
}

/// The opening of the first instruction block, before the system prompt.
pub open spec fn inst_open() -> Seq<char> {
    "[INST] "@
}

/// The opening of every later instruction block.
pub open spec fn inst_reopen() -> Seq<char> {
    " [INST] "@
}

/// The closing of an instruction block.
pub open spec fn inst_close() -> Seq<char> {
    " [/INST]"@
}

/// The first turn of a conversation: the system prompt, then the user's text.
pub open spec fn first_turn(system_prompt: Seq<char>, user: Seq<char>) -> Seq<char> {
    inst_open() + system_prompt + " "@ + user + inst_close()
}

/// A later user turn.
pub open spec fn later_turn(user: Seq<char>) -> Seq<char> {
    inst_reopen() + user + inst_close()
}

/// A model output as it stands in the transcript.
pub open spec fn output_block(model: Seq<char>) -> Seq<char> {
    " "@ + model + " "@
}

/// The transcript after a user turn.
pub open spec fn with_turn(
    transcript: Seq<char>,
    system_prompt: Seq<char>,
    user: Seq<char>,
) -> Seq<char> {
    if transcript.len() == 0 {
        first_turn(system_prompt, trimmed(user))
    } else {
        transcript + later_turn(trimmed(user))
    }
}

/// The transcript after a model output.
pub open spec fn with_output(transcript: Seq<char>, model: Seq<char>) -> Seq<char> {
    transcript + output_block(trimmed(model))
}

/// Appends a user turn to `transcript`. An empty transcript opens with the
/// system prompt; a non-empty one gets a further instruction block. The
/// user's text is trimmed first.
pub fn append_turn(transcript: &str, system_prompt: &str, user_text: &str) -> (r: String)
    ensures
        r@ == with_turn(transcript@, system_prompt@, user_text@),
        transcript@.is_prefix_of(r@),
        r@.len() > 0,
{
    let user = trim_text(user_text);
    proof {
        reveal_strlit("[INST] ");
        reveal_strlit(" [INST] ");
    }
    if transcript.is_empty() {
        let mut r = String::new();
        r.append("[INST] ");
        r.append(system_prompt);
        r.append(" ");
        r.append(user.as_str());
        r.append(" [/INST]");
        assert(r@ =~= first_turn(system_prompt@, trimmed(user_text@)));
        r
    } else {
        let mut r = transcript.to_owned();
        r.append(" [INST] ");
        r.append(user.as_str());
        r.append(" [/INST]");
        assert(r@ =~= transcript@ + later_turn(trimmed(user_text@)));
        assert(transcript@ =~= r@.subrange(0, transcript@.len() as int));
        r
    }
}

/// Appends a model output to `transcript`: the trimmed text, with a space on
/// each side.
pub fn append_output(transcript: &str, model_text: &str) -> (r: String)
    ensures
        r@ == with_output(transcript@, model_text@),
        transcript@.is_prefix_of(r@),
{
    let model = trim_text(model_text);
    let mut r = transcript.to_owned();
    r.append(" ");
    r.append(model.as_str());
    r.append(" ");
    assert(r@ =~= transcript@ + output_block(trimmed(model_text@)));
    assert(transcript@ =~= r@.subrange(0, transcript@.len() as int));
    r
}

/// The transcript that a conversation leaves, built one append at a time from
/// an empty transcript. Each exchange is a user input and the model's output.
pub open spec fn conversation(
    system_prompt: Seq<char>,
    exchanges: Seq<(Seq<char>, Seq<char>)>,
) -> Seq<char>
    decreases exchanges.len(),
{
    if exchanges.len() == 0 {
        Seq::empty()
    } else {
        let earlier = conversation(system_prompt, exchanges.drop_last());
        let last = exchanges.last();
        with_output(with_turn(earlier, system_prompt, last.0), last.1)
    }
}

/// Exchanges after the first one, each as a later user turn followed by the
/// model's output, in order.
pub open spec fn later_exchanges(exchanges: Seq<(Seq<char>, Seq<char>)>) -> Seq<char>
    decreases exchanges.len(),
{
    if exchanges.len() == 0 {
        Seq::empty()
    } else {
        let last = exchanges.last();
        later_exchanges(exchanges.drop_last()) + later_turn(trimmed(last.0)) + output_block(
            trimmed(last.1),
        )
    }
}

/// Every user input and every model output of a conversation stands in the
/// transcript, trimmed and in chronological order, and nothing else is lost:
/// the transcript is the first turn with its output, then each later exchange.
pub proof fn lemma_turns_in_order(
    system_prompt: Seq<char>,
    exchanges: Seq<(Seq<char>, Seq<char>)>,
)
    requires
        exchanges.len() > 0,
    ensures
        conversation(system_prompt, exchanges) == first_turn(
            system_prompt,
            trimmed(exchanges[0].0),
        ) + output_block(trimmed(exchanges[0].1)) + later_exchanges(exchanges.drop_first()),
    decreases exchanges.len(),
{
    reveal_strlit("[INST] ");
    let first = exchanges[0];
    let head = first_turn(system_prompt, trimmed(first.0)) + output_block(trimmed(first.1));
    if exchanges.len() == 1 {
        assert(exchanges.drop_last().len() == 0);
        assert(exchanges.drop_first().len() == 0);
        assert(conversation(system_prompt, exchanges.drop_last()).len() == 0);
        assert(later_exchanges(exchanges.drop_first()).len() == 0);
        assert(conversation(system_prompt, exchanges) =~= head + later_exchanges(
            exchanges.drop_first(),
        ));
    } else {
        let earlier = exchanges.drop_last();
        lemma_turns_in_order(system_prompt, earlier);
        assert(earlier[0] == first);
        assert(earlier.drop_first() =~= exchanges.drop_first().drop_last());
        assert(exchanges.drop_first().last() == exchanges.last());
        let ce = conversation(system_prompt, earlier);
        let last = exchanges.last();
        let tail = later_turn(trimmed(last.0)) + output_block(trimmed(last.1));
        assert(ce == head + later_exchanges(earlier.drop_first()));
        assert(ce.len() > 0);
        assert(conversation(system_prompt, exchanges) =~= ce + tail);
        assert(later_exchanges(exchanges.drop_first()) =~= later_exchanges(earlier.drop_first())
            + tail);
        assert(conversation(system_prompt, exchanges) =~= head + later_exchanges(
            exchanges.drop_first(),
        ));
    }
}

/// The system prompt opens the transcript and appears there once: the text
/// after it is the same whatever the system prompt, so later turns never
/// insert it again.
pub proof fn lemma_system_prompt_once(
    system_prompt: Seq<char>,
    other_prompt: Seq<char>,
    exchanges: Seq<(Seq<char>, Seq<char>)>,
)
    requires
        exchanges.len() > 0,
    ensures
        conversation(system_prompt, exchanges).subrange(
            0,
            (inst_open().len() + system_prompt.len()) as int,
        ) == inst_open() + system_prompt,
        conversation(system_prompt, exchanges).subrange(
            (inst_open().len() + system_prompt.len()) as int,
            conversation(system_prompt, exchanges).len() as int,
        ) == conversation(other_prompt, exchanges).subrange(
            (inst_open().len() + other_prompt.len()) as int,
            conversation(other_prompt, exchanges).len() as int,
        ),
{
    lemma_turns_in_order(system_prompt, exchanges);
    lemma_turns_in_order(other_prompt, exchanges);
    let rest = " "@ + trimmed(exchanges[0].0) + inst_close() + output_block(trimmed(exchanges[0].1))
        + later_exchanges(exchanges.drop_first());
    let c = conversation(system_prompt, exchanges);
    let d = conversation(other_prompt, exchanges);
    assert(c =~= inst_open() + system_prompt + rest);
    assert(d =~= inst_open() + other_prompt + rest);
    assert(c.subrange(0, (inst_open().len() + system_prompt.len()) as int) =~= inst_open() + system_prompt);
    assert(c.subrange((inst_open().len() + system_prompt.len()) as int, c.len() as int) =~= rest);
    assert(d.subrange((inst_open().len() + other_prompt.len()) as int, d.len() as int) =~= rest);
}

/// An earlier state of a conversation is a prefix of every later one.
pub proof fn lemma_conversation_grows(
    system_prompt: Seq<char>,
    exchanges: Seq<(Seq<char>, Seq<char>)>,
    k: int,
)
    requires
        0 <= k <= exchanges.len(),
    ensures
        conversation(system_prompt, exchanges.take(k)).is_prefix_of(
            conversation(system_prompt, exchanges),
        ),
    decreases exchanges.len(),
{
    if k == exchanges.len() {
        assert(exchanges.take(k) =~= exchanges);
    } else {
        let earlier = exchanges.drop_last();
        lemma_conversation_grows(system_prompt, earlier, k);
        assert(earlier.take(k) =~= exchanges.take(k));
        let c = conversation(system_prompt, earlier);
        let last = exchanges.last();
        let d = conversation(system_prompt, exchanges);
        if c.len() == 0 {
            assert(conversation(system_prompt, exchanges.take(k)).len() == 0);
        } else {
            assert(d =~= c + later_turn(trimmed(last.0)) + output_block(trimmed(last.1)));
        }
        assert(c.is_prefix_of(d)) by {
            if c.len() == 0 {
            } else {
                assert(d.subrange(0, c.len() as int) =~= c);
            }
        }
    }
}

/// The transcript up to and including the user turn of exchange `i`.
pub open spec fn through_turn(
    system_prompt: Seq<char>,
    exchanges: Seq<(Seq<char>, Seq<char>)>,
    i: int,
) -> Seq<char> {
    with_turn(conversation(system_prompt, exchanges.take(i)), system_prompt, exchanges[i].0)
}

/// Where the trimmed user input of exchange `i` starts in the transcript.
pub open spec fn user_offset(
    system_prompt: Seq<char>,
    exchanges: Seq<(Seq<char>, Seq<char>)>,
    i: int,
) -> int {
    through_turn(system_prompt, exchanges, i).len() - inst_close().len() - trimmed(
        exchanges[i].0,
    ).len()
}

/// Where the trimmed model output of exchange `i` starts in the transcript.
pub open spec fn output_offset(
    system_prompt: Seq<char>,
    exchanges: Seq<(Seq<char>, Seq<char>)>,
    i: int,
) -> int {
    through_turn(system_prompt, exchanges, i).len() + 1int
}

/// Each trimmed user input and each trimmed model output stands in the
/// transcript, at offsets that increase strictly in chronological order:
/// the input of an exchange, then its output, then the next exchange.
pub proof fn lemma_exchange_positions(
    system_prompt: Seq<char>,
    exchanges: Seq<(Seq<char>, Seq<char>)>,
    i: int,
)
    requires
        0 <= i < exchanges.len(),
    ensures
        0 <= user_offset(system_prompt, exchanges, i),
        user_offset(system_prompt, exchanges, i) + trimmed(exchanges[i].0).len() < output_offset(
            system_prompt,
            exchanges,
            i,
        ),
        output_offset(system_prompt, exchanges, i) + trimmed(exchanges[i].1).len() <= conversation(
            system_prompt,
            exchanges,
        ).len(),
        conversation(system_prompt, exchanges).subrange(
            user_offset(system_prompt, exchanges, i),
            user_offset(system_prompt, exchanges, i) + trimmed(exchanges[i].0).len(),
        ) == trimmed(exchanges[i].0),
        conversation(system_prompt, exchanges).subrange(
            output_offset(system_prompt, exchanges, i),
            output_offset(system_prompt, exchanges, i) + trimmed(exchanges[i].1).len(),
        ) == trimmed(exchanges[i].1),
        i + 1 < exchanges.len() ==> output_offset(system_prompt, exchanges, i) + trimmed(
            exchanges[i].1,
        ).len() < user_offset(system_prompt, exchanges, i + 1),
{
    reveal_strlit("[INST] ");
    reveal_strlit(" [INST] ");
    reveal_strlit(" [/INST]");
    reveal_strlit(" ");
    let whole = conversation(system_prompt, exchanges);
    let upto = exchanges.take(i + 1);
    assert(upto.drop_last() =~= exchanges.take(i));
    assert(upto.last() == exchanges[i]);
    let base = conversation(system_prompt, exchanges.take(i));
    let turned = through_turn(system_prompt, exchanges, i);
    let tu = trimmed(exchanges[i].0);
    let to = trimmed(exchanges[i].1);
    let c = conversation(system_prompt, upto);
    assert(c == turned + output_block(to));
    let u = user_offset(system_prompt, exchanges, i);
    let o = output_offset(system_prompt, exchanges, i);
    if base.len() == 0 {
        assert(turned =~= inst_open() + system_prompt + " "@ + tu + inst_close());
    } else {
        assert(turned =~= base + inst_reopen() + tu + inst_close());
    }
    assert(turned.subrange(u, u + tu.len()) =~= tu);
    assert(c.subrange(u, u + tu.len()) =~= tu);
    assert(c.subrange(o, o + to.len()) =~= to);
    lemma_conversation_grows(system_prompt, exchanges, i + 1);
    assert(whole.subrange(u, u + tu.len()) =~= c.subrange(u, u + tu.len()));
    assert(whole.subrange(o, o + to.len()) =~= c.subrange(o, o + to.len()));
    if i + 1 < exchanges.len() {
        assert(exchanges.take(i + 1) == upto);
        assert(c.len() > 0);
        let next = through_turn(system_prompt, exchanges, i + 1);
        assert(next =~= c + inst_reopen() + trimmed(exchanges[i + 1].0) + inst_close());
    }
}

/// How many times `p` occurs in `s`, overlapping occurrences counted.
pub open spec fn occurrences(s: Seq<char>, p: Seq<char>) -> nat
    decreases s.len(),
{
    if s.len() == 0 {
        0
    } else {
        (if p.is_prefix_of(s) {
            1nat
        } else {
            0nat
        }) + occurrences(s.drop_first(), p)
    }
}

/// Joining two texts at a space adds no occurrence of a pattern without
/// spaces.
proof fn lemma_occurrences_join(a: Seq<char>, b: Seq<char>, p: Seq<char>)
    requires
        p.len() > 0,
        !p.contains(' '),
        (a.len() > 0 && a.last() == ' ') || (b.len() > 0 && b[0] == ' '),
    ensures
        occurrences(a + b, p) == occurrences(a, p) + occurrences(b, p),
    decreases a.len(),
{
    if a.len() == 0 {
        assert(a + b =~= b);
    } else {
        let ab = a + b;
        assert(ab.drop_first() =~= a.drop_first() + b);
        if a.len() == 1 && !(b.len() > 0 && b[0] == ' ') {
            assert(a.drop_first() + b =~= b);
            assert(occurrences(a.drop_first(), p) == 0);
        } else {
            if a.len() > 1 {
                assert(a.drop_first().last() == a.last());
            }
            lemma_occurrences_join(a.drop_first(), b, p);
        }
        if p.len() <= a.len() {
            assert(ab.subrange(0, p.len() as int) =~= a.subrange(0, p.len() as int));
        } else {
            if p.is_prefix_of(ab) {
                if a.last() == ' ' {
                    assert(p[a.len() - 1] == ab[a.len() - 1]);
                } else {
                    assert(p[a.len() as int] == ab[a.len() as int]);
                }
            }
        }
    }
}

/// A text none of whose characters starts the pattern holds no occurrence.
proof fn lemma_occurrences_none(s: Seq<char>, p: Seq<char>)
    requires
        p.len() > 0,
        !s.contains(p[0]),
    ensures
        occurrences(s, p) == 0,
    decreases s.len(),
{
    if s.len() > 0 {
        if p.is_prefix_of(s) {
            assert(s[0] == p[0]);
        }
        assert(!s.drop_first().contains(p[0])) by {
            if s.drop_first().contains(p[0]) {
                let k = choose|k: int| 0 <= k < s.drop_first().len() && s.drop_first()[k] == p[0];
                assert(s[k + 1] == p[0]);
            }
        }
        lemma_occurrences_none(s.drop_first(), p);
    }
}

proof fn lemma_occurrences_drop_last(s: Seq<char>, p: Seq<char>)
    requires
        s.len() > 0,
    ensures
        occurrences(s.drop_last(), p) <= occurrences(s, p),
    decreases s.len(),
{
    if s.len() > 1 {
        assert(s.drop_last().drop_first() =~= s.drop_first().drop_last());
        lemma_occurrences_drop_last(s.drop_first(), p);
        if p.is_prefix_of(s.drop_last()) {
            assert(s.subrange(0, p.len() as int) =~= s.drop_last().subrange(0, p.len() as int));
        }
    }
}

/// Trimming never adds an occurrence of a pattern.
proof fn lemma_occurrences_trimmed(s: Seq<char>, p: Seq<char>)
    ensures
        occurrences(trimmed(s), p) <= occurrences(s, p),
{
    lemma_occurrences_trim_start(s, p);
    lemma_occurrences_trim_end(trim_start(s), p);
}

proof fn lemma_occurrences_trim_start(s: Seq<char>, p: Seq<char>)
    ensures
        occurrences(trim_start(s), p) <= occurrences(s, p),
    decreases s.len(),
{
    if s.len() > 0 && is_white_space(s[0]) {
        lemma_occurrences_trim_start(s.drop_first(), p);
    }
}

proof fn lemma_occurrences_trim_end(s: Seq<char>, p: Seq<char>)
    ensures
        occurrences(trim_end(s), p) <= occurrences(s, p),
    decreases s.len(),
{
    if s.len() > 0 && is_white_space(s.last()) {
        lemma_occurrences_trim_end(s.drop_last(), p);
        lemma_occurrences_drop_last(s, p);
    }
}

/// The marker that opens the built-in system prompt.
pub open spec fn system_marker() -> Seq<char> {
    "<<SYS>>"@
}

proof fn lemma_template_pieces()
    ensures
        occurrences(inst_open(), system_marker()) == 0,
        occurrences(inst_reopen(), system_marker()) == 0,
        occurrences(inst_close(), system_marker()) == 0,
        occurrences(" "@, system_marker()) == 0,
        system_marker().len() > 0,
        !system_marker().contains(' '),
        inst_open().len() > 0,
        inst_open().last() == ' ',
        inst_reopen().len() > 0,
        inst_reopen().last() == ' ',
        inst_close().len() > 0,
        inst_close()[0] == ' ',
        (" "@).len() == 1,
        (" "@)[0] == ' ',
{
    reveal_strlit("<<SYS>>");
    reveal_strlit("[INST] ");
    reveal_strlit(" [INST] ");
    reveal_strlit(" [/INST]");
    reveal_strlit(" ");
    let m = system_marker();
    assert(m[0] == '<');
    assert(!m.contains(' ')) by {
        if m.contains(' ') {
            let k = choose|k: int| 0 <= k < m.len() && m[k] == ' ';
            assert(m[k] == ' ');
        }
    }
    assert(!inst_open().contains('<'));
    assert(!inst_reopen().contains('<'));
    assert(!inst_close().contains('<'));
    assert(!(" "@).contains('<'));
    lemma_occurrences_none(inst_open(), m);
    lemma_occurrences_none(inst_reopen(), m);
    lemma_occurrences_none(inst_close(), m);
    lemma_occurrences_none(" "@, m);
}

/// The system prompt is inserted once: where no user input and no model
/// output holds the system-prompt marker, the transcript holds it exactly as
/// often as the system prompt itself does.
pub proof fn lemma_system_marker_count(
    system_prompt: Seq<char>,
    exchanges: Seq<(Seq<char>, Seq<char>)>,
)
    requires
        exchanges.len() > 0,
        forall|i: int|
            0 <= i < exchanges.len() ==> occurrences(#[trigger] exchanges[i].0, system_marker())
                == 0 && occurrences(exchanges[i].1, system_marker()) == 0,
    ensures
        occurrences(conversation(system_prompt, exchanges), system_marker()) == occurrences(
            system_prompt,
            system_marker(),
        ),
    decreases exchanges.len(),
{
    lemma_template_pieces();
    reveal_strlit(" ");
    let m = system_marker();
    let last = exchanges.last();
    let tu = trimmed(last.0);
    let to = trimmed(last.1);
    assert(occurrences(exchanges[exchanges.len() - 1].0, m) == 0);
    lemma_occurrences_trimmed(last.0, m);
    lemma_occurrences_trimmed(last.1, m);
    // the output block: " " + to + " "
    lemma_occurrences_join(to, " "@, m);
    lemma_occurrences_join(" "@, to + " "@, m);
    assert(output_block(to) =~= " "@ + (to + " "@));
    // the closing of a turn: tu + " [/INST]"
    lemma_occurrences_join(tu, inst_close(), m);
    let earlier = exchanges.drop_last();
    if exchanges.len() == 1 {
        assert(earlier.len() == 0);
        assert(conversation(system_prompt, earlier).len() == 0);
        let rest = " "@ + (tu + inst_close());
        lemma_occurrences_join(" "@, tu + inst_close(), m);
        lemma_occurrences_join(system_prompt, rest, m);
        lemma_occurrences_join(inst_open(), system_prompt + rest, m);
        let turn = inst_open() + (system_prompt + rest);
        assert(first_turn(system_prompt, tu) =~= turn);
        assert((" "@ + (to + " "@))[0] == ' ');
        lemma_occurrences_join(turn, output_block(to), m);
        assert(conversation(system_prompt, exchanges) =~= turn + output_block(to));
    } else {
        assert forall|i: int| 0 <= i < earlier.len() implies occurrences(
            #[trigger] earlier[i].0,
            m,
        ) == 0 && occurrences(earlier[i].1, m) == 0 by {
            assert(earlier[i] == exchanges[i]);
        }
        lemma_system_marker_count(system_prompt, earlier);
        lemma_turns_in_order(system_prompt, earlier);
        let c = conversation(system_prompt, earlier);
        assert(c.len() > 0 && c.last() == ' ') by {
            let first = earlier[0];
            let ob = output_block(trimmed(first.1));
            let tail = later_exchanges(earlier.drop_first());
            if tail.len() > 0 {
                let el = earlier.drop_first();
                assert(el.len() > 0);
                assert(tail == later_exchanges(el.drop_last()) + later_turn(trimmed(el.last().0))
                    + output_block(trimmed(el.last().1)));
            }
        }
        let turn = inst_reopen() + (tu + inst_close());
        lemma_occurrences_join(inst_reopen(), tu + inst_close(), m);
        assert(later_turn(tu) =~= turn);
        assert((" "@ + (to + " "@))[0] == ' ');
        lemma_occurrences_join(turn, output_block(to), m);
        lemma_occurrences_join(c, turn + output_block(to), m);
        assert(conversation(system_prompt, exchanges) =~= c + (turn + output_block(to)));
    }
}

} // verus!
