//! Slack messages: the text sent for each event, with TMDB-sourced values
//! escaped so that they cannot inject mrkdwn markup or links.
use vstd::prelude::*;
use crate::error::AppError;
use crate::http_status::{is_success, status_display, status_is_success, status_text};
use crate::notifications::event::NotificationEvent;
use crate::text::{chars_of, concat, owned, pad2_text, push_char, push_pad2, push_str, views};

verus! {

/// Seconds a webhook request may take.
pub const SLACK_HTTP_TIMEOUT_SECS: u64 = 10;

/// The Slack channel: where its webhook is. The HTTP client that posts to
/// it lives with the caller.
pub struct SlackNotifier {
    webhook_url: String,
}

/// How one character is written in mrkdwn: Slack's three HTML escapes, and
/// look-alikes without markup meaning for the formatting characters.
pub open spec fn escape_char(c: char) -> Seq<char> {
    if c == '&' {
        seq!['&', 'a', 'm', 'p', ';']
    } else if c == '<' {
        seq!['&', 'l', 't', ';']
    } else if c == '>' {
        seq!['&', 'g', 't', ';']
    } else if c == '*' {
        seq!['\u{2217}']
    } else if c == '_' {
        seq!['\u{2017}']
    } else if c == '~' {
        seq!['\u{223C}']
    } else if c == '`' {
        seq!['\u{2018}']
    } else {
        seq![c]
    }
}

/// `s` with every character escaped.
pub open spec fn escape_text(s: Seq<char>) -> Seq<char>
    decreases s.len(),
{
    if s.len() == 0 {
        Seq::empty()
    } else {
        escape_text(s.drop_last()) + escape_char(s.last())
    }
}

/// The characters that carry meaning in mrkdwn.
pub open spec fn is_markup_char(c: char) -> bool {
    c == '&' || c == '<' || c == '>' || c == '*' || c == '_' || c == '~' || c == '`'
}

/// The characters no escaped text contains.
pub open spec fn is_markup_opener(c: char) -> bool {
    c == '<' || c == '>' || c == '*' || c == '_' || c == '~' || c == '`'
}

/// The items separated by `sep`.
pub open spec fn join_text(items: Seq<Seq<char>>, sep: Seq<char>) -> Seq<char>
    decreases items.len(),
{
    if items.len() == 0 {
        Seq::empty()
    } else if items.len() == 1 {
        items[0]
    } else {
        join_text(items.drop_last(), sep) + sep + items.last()
    }
}

pub open spec fn escaped_all(names: Seq<Seq<char>>) -> Seq<Seq<char>> {
    names.map_values(|n: Seq<char>| escape_text(n))
}

/// The " — available on A, B" tail; nothing when no provider is known.
pub open spec fn providers_text(names: Seq<Seq<char>>) -> Seq<char> {
    if names.len() == 0 {
        Seq::empty()
    } else {
        " \u{2014} available on "@ + join_text(escaped_all(names), ", "@)
    }
}

/// The Slack message text of an event.
pub open spec fn format_text(event: NotificationEvent) -> Seq<char> {
    match event {
        NotificationEvent::EpisodeAiringToday {
            show_name,
            season,
            episode,
            title,
            where_to_watch,
        } => "\u{1F4FA} *"@ + escape_text(show_name@) + "* \u{2014} S"@ + pad2_text(season as int)
            + "E"@ + pad2_text(episode as int) + " \""@ + escape_text(title@) + "\" airs today"@
            + providers_text(views(where_to_watch@)),
        NotificationEvent::Test { message } => "\u{1F514} Showrunner test: "@ + escape_text(
            message@,
        ),
    }
}

/// Escapes text for Slack's mrkdwn so TMDB-sourced values can't inject
/// markup: `&`, `<`, `>` become Slack's HTML escapes, and `*`, `_`, `~`,
/// `` ` `` become look-alikes that carry no formatting meaning.
pub fn escape_mrkdwn(input: &str) -> (r: String)
    ensures
        r@ == escape_text(input@),
{
    let mut out = String::new();
    let v = chars_of(input);
    let mut i: usize = 0;
    while i < v.len()
        invariant
            0 <= i <= v@.len(),
            v@ == input@,
            out@ == escape_text(v@.take(i as int)),
        decreases v@.len() - i,
    {
        let ch = v[i];
        let ghost before = out@;
        if ch == '&' {
            push_char(&mut out, '&');
            push_char(&mut out, 'a');
            push_char(&mut out, 'm');
            push_char(&mut out, 'p');
            push_char(&mut out, ';');
        } else if ch == '<' {
            push_char(&mut out, '&');
            push_char(&mut out, 'l');
            push_char(&mut out, 't');
            push_char(&mut out, ';');
        } else if ch == '>' {
            push_char(&mut out, '&');
            push_char(&mut out, 'g');
            push_char(&mut out, 't');
            push_char(&mut out, ';');
        } else if ch == '*' {
            push_char(&mut out, '\u{2217}');
        } else if ch == '_' {
            push_char(&mut out, '\u{2017}');
        } else if ch == '~' {
            push_char(&mut out, '\u{223C}');
        } else if ch == '`' {
            push_char(&mut out, '\u{2018}');
        } else {
            push_char(&mut out, ch);
        }
        proof {
            let t = v@.take(i + 1);
            assert(t.drop_last() =~= v@.take(i as int));
            assert(t.last() == ch);
            assert(out@ =~= before + escape_char(ch));
        }
        i = i + 1;
    }
    assert(v@.take(v@.len() as int) =~= v@);
    out
}

fn push_escaped(out: &mut String, s: &str)
    ensures
        final(out)@ == old(out)@ + escape_text(s@),
{
    let e = escape_mrkdwn(s);
    push_str(out, e.as_str());
}

fn push_providers(out: &mut String, names: &Vec<String>)
    ensures
        final(out)@ == old(out)@ + providers_text(views(names@)),
{
    if names.len() == 0 {
        assert(old(out)@ + providers_text(views(names@)) =~= old(out)@);
        return;
    }
    push_str(out, " \u{2014} available on ");
    let ghost start = out@;
    let mut i: usize = 0;
    while i < names.len()
        invariant
            0 <= i <= names@.len(),
            names@.len() > 0,
            out@ == start + join_text(escaped_all(views(names@.take(i as int))), ", "@),
        decreases names@.len() - i,
    {
        let ghost before = out@;
        if i > 0 {
            push_str(out, ", ");
        }
        push_escaped(out, names[i].as_str());
        proof {
            let a = escaped_all(views(names@.take(i as int)));
            let b = escaped_all(views(names@.take(i + 1)));
            assert(b.drop_last() =~= a);
            assert(b.last() == escape_text(names@[i as int]@));
            if i == 0 {
                assert(a.len() == 0);
                assert(join_text(a, ", "@) =~= Seq::<char>::empty());
                assert(b.len() == 1);
            }
            assert(out@ =~= start + join_text(b, ", "@));
        }
        i = i + 1;
    }
    assert(names@.take(names@.len() as int) =~= names@);
}

impl SlackNotifier {
    pub closed spec fn spec_webhook_url(&self) -> Seq<char> {
        self.webhook_url@
    }

    pub fn new(webhook_url: String) -> (r: Self)
        ensures
            r.spec_webhook_url() == webhook_url@,
    {
        SlackNotifier { webhook_url }
    }

    pub fn webhook_url(&self) -> (r: &str)
        ensures
            r@ == self.spec_webhook_url(),
    {
        self.webhook_url.as_str()
    }

    /// The channel's name.
    pub fn name(&self) -> (r: &'static str)
        ensures
            r@ == "slack"@,
    {
        "slack"
    }

    /// The message text posted for an event.
    pub fn format(event: &NotificationEvent) -> (r: String)
        ensures
            r@ == format_text(*event),
    {
        match event {
            NotificationEvent::EpisodeAiringToday {
                show_name,
                season,
                episode,
                title,
                where_to_watch,
            } => {
                let mut s = owned("\u{1F4FA} *");
                push_escaped(&mut s, show_name.as_str());
                push_str(&mut s, "* \u{2014} S");
                push_pad2(&mut s, *season);
                push_str(&mut s, "E");
                push_pad2(&mut s, *episode);
                push_str(&mut s, " \"");
                push_escaped(&mut s, title.as_str());
                push_str(&mut s, "\" airs today");
                push_providers(&mut s, where_to_watch);
                s
            },
            NotificationEvent::Test { message } => {
                let mut s = owned("\u{1F514} Showrunner test: ");
                push_escaped(&mut s, message.as_str());
                s
            },
        }
    }
}

/// Checks the status of a webhook response: any non-2xx is an upstream
/// failure, `Upstream("Slack webhook returned <status>")`.
pub fn check_webhook_status(status: u16) -> (r: Result<(), AppError>)
    requires
        100 <= status <= 999,
    ensures
        r is Ok <==> is_success(status),
        r matches Err(e) ==> e matches AppError::Upstream(m) && m@ == "Slack webhook returned "@
            + status_display(status),
{
    if !status_is_success(status) {
        let t = status_text(status);
        return Err(AppError::Upstream(concat("Slack webhook returned ", t.as_str())));
    }
    Ok(())
}

// === Laws of the escaping ===

/// Escaped text never holds `<`, `>`, `*`, `_`, `~` or `` ` ``: no link and
/// no formatting span can be opened or closed by it.
pub proof fn escape_removes_markup(s: Seq<char>)
    ensures
        forall|i: int| 0 <= i < escape_text(s).len() ==> !is_markup_opener(
            #[trigger] escape_text(s)[i],
        ),
    decreases s.len(),
{
    if s.len() > 0 {
        escape_removes_markup(s.drop_last());
        let a = escape_text(s.drop_last());
        let b = escape_char(s.last());
        assert forall|i: int| 0 <= i < escape_text(s).len() implies !is_markup_opener(
            #[trigger] escape_text(s)[i],
        ) by {
            if i >= a.len() {
                assert(escape_text(s)[i] == b[i - a.len()]);
            } else {
                assert(escape_text(s)[i] == a[i]);
            }
        }
    }
}

/// Text without markup characters passes through the escaping unchanged.
pub proof fn escape_keeps_plain_text(s: Seq<char>)
    requires
        forall|i: int| 0 <= i < s.len() ==> !is_markup_char(#[trigger] s[i]),
    ensures
        escape_text(s) == s,
    decreases s.len(),
{
    if s.len() > 0 {
        escape_keeps_plain_text(s.drop_last());
        assert(!is_markup_char(s[s.len() - 1]));
        assert(s =~= s.drop_last().push(s.last()));
    }
}


/// How many times `c` occurs in `s`.
pub open spec fn count_char(s: Seq<char>, c: char) -> nat
    decreases s.len(),
{
    if s.len() == 0 {
        0
    } else {
        count_char(s.drop_last(), c) + if s.last() == c {
            1nat
        } else {
            0nat
        }
    }
}

/// `s` does not contain `c`.
pub open spec fn lacks(s: Seq<char>, c: char) -> bool {
    forall|i: int| 0 <= i < s.len() ==> #[trigger] s[i] != c
}

proof fn lemma_count_concat(a: Seq<char>, b: Seq<char>, c: char)
    ensures
        count_char(a + b, c) == count_char(a, c) + count_char(b, c),
    decreases b.len(),
{
    if b.len() == 0 {
        assert(a + b =~= a);
    } else {
        assert((a + b).drop_last() =~= a + b.drop_last());
        lemma_count_concat(a, b.drop_last(), c);
    }
}

proof fn lemma_count_lacks(s: Seq<char>, c: char)
    requires
        lacks(s, c),
    ensures
        count_char(s, c) == 0,
    decreases s.len(),
{
    if s.len() > 0 {
        assert(s[s.len() - 1] != c);
        lemma_count_lacks(s.drop_last(), c);
    }
}

proof fn lemma_lacks_concat(a: Seq<char>, b: Seq<char>, c: char)
    requires
        lacks(a, c),
        lacks(b, c),
    ensures
        lacks(a + b, c),
{
    assert forall|i: int| 0 <= i < (a + b).len() implies #[trigger] (a + b)[i] != c by {
        if i < a.len() {
            assert((a + b)[i] == a[i]);
        } else {
            assert((a + b)[i] == b[i - a.len()]);
        }
    }
}

proof fn lemma_escape_lacks(s: Seq<char>, c: char)
    requires
        is_markup_opener(c),
    ensures
        lacks(escape_text(s), c),
{
    escape_removes_markup(s);
}

proof fn lemma_digits_lack(n: nat, c: char)
    requires
        !crate::text::is_digit(c),
    ensures
        lacks(crate::text::nat_digits(n), c),
    decreases n,
{
    if n >= 10 {
        lemma_digits_lack(n / 10, c);
        lemma_lacks_concat(crate::text::nat_digits(n / 10), seq![crate::text::digit_char(n % 10)], c);
        assert(crate::text::nat_digits(n) =~= crate::text::nat_digits(n / 10) + seq![crate::text::digit_char(n % 10)]);
    }
}

proof fn lemma_pad2_lacks(n: int, c: char)
    requires
        !crate::text::is_digit(c),
        c != '-',
    ensures
        lacks(pad2_text(n), c),
{
    if 0 <= n < 10 {
        lemma_digits_lack(n as nat, c);
        lemma_lacks_concat(seq!['0'], crate::text::nat_digits(n as nat), c);
    } else if n < 0 {
        lemma_digits_lack((-n) as nat, c);
        lemma_lacks_concat(seq!['-'], crate::text::nat_digits((-n) as nat), c);
    } else {
        lemma_digits_lack(n as nat, c);
    }
}

proof fn lemma_join_lacks(items: Seq<Seq<char>>, sep: Seq<char>, c: char)
    requires
        lacks(sep, c),
        forall|i: int| 0 <= i < items.len() ==> lacks(#[trigger] items[i], c),
    ensures
        lacks(join_text(items, sep), c),
    decreases items.len(),
{
    if items.len() > 1 {
        lemma_join_lacks(items.drop_last(), sep, c);
        assert(lacks(items[items.len() - 1], c));
        lemma_lacks_concat(join_text(items.drop_last(), sep), sep, c);
        lemma_lacks_concat(join_text(items.drop_last(), sep) + sep, items.last(), c);
    } else if items.len() == 1 {
        assert(lacks(items[0], c));
    }
}

proof fn lemma_providers_lack(names: Seq<Seq<char>>, c: char)
    requires
        is_markup_opener(c),
        lacks(" \u{2014} available on "@, c),
        lacks(", "@, c),
    ensures
        lacks(providers_text(names), c),
{
    if names.len() > 0 {
        let items = escaped_all(names);
        assert forall|i: int| 0 <= i < items.len() implies lacks(#[trigger] items[i], c) by {
            lemma_escape_lacks(names[i], c);
        }
        lemma_join_lacks(items, ", "@, c);
        lemma_lacks_concat(" \u{2014} available on "@, join_text(items, ", "@), c);
    }
}

/// No Slack message holds a `<`: whatever TMDB sends, no `<url|label>` link
/// can appear in it.
pub proof fn message_has_no_link(event: NotificationEvent)
    ensures
        lacks(format_text(event), '<'),
{
    let c = '<';
    reveal_strlit("\u{1F4FA} *");
    reveal_strlit("* \u{2014} S");
    reveal_strlit("E");
    reveal_strlit(" \"");
    reveal_strlit("\" airs today");
    reveal_strlit(" \u{2014} available on ");
    reveal_strlit(", ");
    reveal_strlit("\u{1F514} Showrunner test: ");
    match event {
        NotificationEvent::EpisodeAiringToday { show_name, season, episode, title, where_to_watch } => {
            let p1 = "\u{1F4FA} *"@;
            let p2 = escape_text(show_name@);
            let p3 = "* \u{2014} S"@;
            let p4 = pad2_text(season as int);
            let p5 = "E"@;
            let p6 = pad2_text(episode as int);
            let p7 = " \""@;
            let p8 = escape_text(title@);
            let p9 = "\" airs today"@;
            let p10 = providers_text(views(where_to_watch@));
            lemma_escape_lacks(show_name@, c);
            lemma_escape_lacks(title@, c);
            lemma_pad2_lacks(season as int, c);
            lemma_pad2_lacks(episode as int, c);
            lemma_providers_lack(views(where_to_watch@), c);
            lemma_lacks_concat(p1, p2, c);
            lemma_lacks_concat(p1 + p2, p3, c);
            lemma_lacks_concat(p1 + p2 + p3, p4, c);
            lemma_lacks_concat(p1 + p2 + p3 + p4, p5, c);
            lemma_lacks_concat(p1 + p2 + p3 + p4 + p5, p6, c);
            lemma_lacks_concat(p1 + p2 + p3 + p4 + p5 + p6, p7, c);
            lemma_lacks_concat(p1 + p2 + p3 + p4 + p5 + p6 + p7, p8, c);
            lemma_lacks_concat(p1 + p2 + p3 + p4 + p5 + p6 + p7 + p8, p9, c);
            lemma_lacks_concat(p1 + p2 + p3 + p4 + p5 + p6 + p7 + p8 + p9, p10, c);
        },
        NotificationEvent::Test { message } => {
            lemma_escape_lacks(message@, c);
            lemma_lacks_concat("\u{1F514} Showrunner test: "@, escape_text(message@), c);
        },
    }
}

/// An episode message holds exactly the two `*` of the bold show name: no
/// TMDB text can close that span early or open another.
pub proof fn message_bold_span_is_closed(event: NotificationEvent)
    requires
        event is EpisodeAiringToday,
    ensures
        count_char(format_text(event), '*') == 2,
{
    let c = '*';
    reveal_strlit("\u{1F4FA} *");
    reveal_strlit("* \u{2014} S");
    reveal_strlit("E");
    reveal_strlit(" \"");
    reveal_strlit("\" airs today");
    reveal_strlit(" \u{2014} available on ");
    reveal_strlit(", ");
    match event {
        NotificationEvent::EpisodeAiringToday { show_name, season, episode, title, where_to_watch } => {
            let p1 = "\u{1F4FA} *"@;
            let p2 = escape_text(show_name@);
            let p3 = "* \u{2014} S"@;
            let p4 = pad2_text(season as int);
            let p5 = "E"@;
            let p6 = pad2_text(episode as int);
            let p7 = " \""@;
            let p8 = escape_text(title@);
            let p9 = "\" airs today"@;
            let p10 = providers_text(views(where_to_watch@));
            lemma_escape_lacks(show_name@, c);
            lemma_escape_lacks(title@, c);
            lemma_pad2_lacks(season as int, c);
            lemma_pad2_lacks(episode as int, c);
            lemma_providers_lack(views(where_to_watch@), c);
            assert(p1 =~= seq!['\u{1F4FA}', ' '] + seq!['*']);
            lemma_count_concat(seq!['\u{1F4FA}', ' '], seq!['*'], c);
            lemma_count_lacks(seq!['\u{1F4FA}', ' '], c);
            assert(count_char(seq!['*'], c) == 1) by {
                assert(seq!['*'].drop_last() =~= Seq::<char>::empty());
                assert(count_char(Seq::<char>::empty(), c) == 0);
                assert(seq!['*'].last() == '*');
                assert(seq!['*'].len() == 1);
            }
            assert(p3 =~= seq!['*'] + seq![' ', '\u{2014}', ' ', 'S']);
            lemma_count_concat(seq!['*'], seq![' ', '\u{2014}', ' ', 'S'], c);
            lemma_count_lacks(seq![' ', '\u{2014}', ' ', 'S'], c);
            lemma_count_lacks(p2, c);
            lemma_count_lacks(p4, c);
            lemma_count_lacks(p5, c);
            lemma_count_lacks(p6, c);
            lemma_count_lacks(p7, c);
            lemma_count_lacks(p8, c);
            lemma_count_lacks(p9, c);
            lemma_count_lacks(p10, c);
            lemma_count_concat(p1, p2, c);
            lemma_count_concat(p1 + p2, p3, c);
            lemma_count_concat(p1 + p2 + p3, p4, c);
            lemma_count_concat(p1 + p2 + p3 + p4, p5, c);
            lemma_count_concat(p1 + p2 + p3 + p4 + p5, p6, c);
            lemma_count_concat(p1 + p2 + p3 + p4 + p5 + p6, p7, c);
            lemma_count_concat(p1 + p2 + p3 + p4 + p5 + p6 + p7, p8, c);
            lemma_count_concat(p1 + p2 + p3 + p4 + p5 + p6 + p7 + p8, p9, c);
            lemma_count_concat(p1 + p2 + p3 + p4 + p5 + p6 + p7 + p8 + p9, p10, c);
        },
        _ => {},
    }
}


/// The total length of some texts.
pub open spec fn total_len(items: Seq<Seq<char>>) -> nat
    decreases items.len(),
{
    if items.len() == 0 {
        0
    } else {
        total_len(items.drop_last()) + items.last().len()
    }
}

proof fn lemma_total_len_take(items: Seq<Seq<char>>, k: int)
    requires
        0 <= k < items.len(),
    ensures
        total_len(items.take(k + 1)) == total_len(items.take(k)) + items[k].len(),
        total_len(items.take(k + 1)) <= total_len(items),
    decreases items.len(),
{
    assert(items.take(k + 1).drop_last() =~= items.take(k));
    if k + 1 < items.len() {
        lemma_total_len_take(items.drop_last(), k);
        assert(items.drop_last().take(k + 1) =~= items.take(k + 1));
    } else {
        assert(items.take(k + 1) =~= items);
    }
}

proof fn lemma_concat_left(a: Seq<char>, b: Seq<char>, i: int, j: int)
    requires
        0 <= i <= j <= a.len(),
    ensures
        (a + b).subrange(i, j) == a.subrange(i, j),
{
    assert((a + b).subrange(i, j) =~= a.subrange(i, j));
}

proof fn lemma_concat_right(a: Seq<char>, b: Seq<char>, i: int, j: int)
    requires
        a.len() <= i <= j <= a.len() + b.len(),
    ensures
        (a + b).subrange(i, j) == b.subrange(i - a.len(), j - a.len()),
{
    assert((a + b).subrange(i, j) =~= b.subrange(i - a.len(), j - a.len()));
}

proof fn lemma_join_len(items: Seq<Seq<char>>)
    requires
        items.len() > 0,
    ensures
        join_text(items, ", "@).len() == total_len(items) + 2 * (items.len() - 1),
    decreases items.len(),
{
    reveal_strlit(", ");
    if items.len() == 1 {
        assert(items.drop_last() =~= Seq::<Seq<char>>::empty());
        assert(total_len(items.drop_last()) == 0);
    } else {
        lemma_join_len(items.drop_last());
    }
}

proof fn lemma_join_item(items: Seq<Seq<char>>, k: int)
    requires
        0 <= k < items.len(),
    ensures
        join_text(items, ", "@).subrange(
            total_len(items.take(k)) + 2 * k,
            total_len(items.take(k)) + 2 * k + items[k].len(),
        ) == items[k],
    decreases items.len(),
{
    let sep = ", "@;
    reveal_strlit(", ");
    let n = items.len() as int;
    if n == 1 {
        assert(items.take(0) =~= Seq::<Seq<char>>::empty());
        assert(join_text(items, sep).subrange(0, items[0].len() as int) =~= items[0]);
    } else {
        let init = items.drop_last();
        let last = items.last();
        lemma_join_len(init);
        let ji = join_text(init, sep);
        let jis = ji + sep;
        assert(join_text(items, sep) == jis + last);
        if k < n - 1 {
            lemma_join_item(init, k);
            assert(init.take(k) =~= items.take(k));
            assert(init[k] == items[k]);
            lemma_total_len_take(init, k);
            let off = total_len(items.take(k)) + 2 * k;
            let end = off + items[k].len();
            lemma_concat_left(ji, sep, off, end);
            lemma_concat_left(jis, last, off, end);
        } else {
            assert(items.take(k) =~= init);
            let off = total_len(init) + 2 * k;
            lemma_concat_right(jis, last, off, off + last.len());
            assert(last.subrange(0, last.len() as int) =~= last);
        }
    }
}

proof fn lemma_join_sep(items: Seq<Seq<char>>, k: int)
    requires
        0 <= k < items.len() - 1,
    ensures
        join_text(items, ", "@).subrange(
            total_len(items.take(k + 1)) + 2 * k,
            total_len(items.take(k + 1)) + 2 * k + 2,
        ) == ", "@,
    decreases items.len(),
{
    let sep = ", "@;
    reveal_strlit(", ");
    let n = items.len() as int;
    let init = items.drop_last();
    let last = items.last();
    lemma_join_len(init);
    let ji = join_text(init, sep);
    let jis = ji + sep;
    assert(join_text(items, sep) == jis + last);
    if k < n - 2 {
        lemma_join_sep(init, k);
        assert(init.take(k + 1) =~= items.take(k + 1));
        lemma_total_len_take(init, k + 1);
        let off = total_len(items.take(k + 1)) + 2 * k;
        lemma_concat_left(ji, sep, off, off + 2);
        lemma_concat_left(jis, last, off, off + 2);
    } else {
        assert(items.take(k + 1) =~= init);
        let off = total_len(init) + 2 * k;
        lemma_concat_right(ji, sep, off, off + 2);
        assert(sep.subrange(0, 2) =~= sep);
        lemma_concat_left(jis, last, off, off + 2);
    }
}

/// Joining texts with ", " lays every one of them end to end, in order,
/// with ", " between neighbours and nothing else: the k-th text starts
/// after the earlier texts and their separators, and all but the last are
/// followed by ", ".
pub proof fn joined_with_commas_lists_every_item(items: Seq<Seq<char>>)
    requires
        items.len() > 0,
    ensures
        join_text(items, ", "@).len() == total_len(items) + 2 * (items.len() - 1),
        forall|k: int|
            #![trigger items[k]]
            0 <= k < items.len() ==> join_text(items, ", "@).subrange(
                total_len(items.take(k)) + 2 * k,
                total_len(items.take(k)) + 2 * k + items[k].len(),
            ) == items[k],
        forall|k: int|
            #![trigger items[k]]
            0 <= k < items.len() - 1 ==> join_text(items, ", "@).subrange(
                total_len(items.take(k + 1)) + 2 * k,
                total_len(items.take(k + 1)) + 2 * k + 2,
            ) == ", "@,
{
    lemma_join_len(items);
    assert forall|k: int| #![trigger items[k]] 0 <= k < items.len() implies join_text(
        items,
        ", "@,
    ).subrange(
        total_len(items.take(k)) + 2 * k,
        total_len(items.take(k)) + 2 * k + items[k].len(),
    ) == items[k] by {
        lemma_join_item(items, k);
    }
    assert forall|k: int| #![trigger items[k]] 0 <= k < items.len() - 1 implies join_text(
        items,
        ", "@,
    ).subrange(total_len(items.take(k + 1)) + 2 * k, total_len(items.take(k + 1)) + 2 * k + 2)
        == ", "@ by {
        lemma_join_sep(items, k);
    }
}

/// The providers tail of a message names every provider: nothing when
/// none is known, otherwise " — available on " followed by each escaped
/// name in order, separated by ", ".
pub proof fn providers_tail_names_every_provider(names: Seq<Seq<char>>)
    ensures
        names.len() == 0 ==> providers_text(names).len() == 0,
        names.len() > 0 ==> {
            let pre = " \u{2014} available on "@;
            let esc = escaped_all(names);
            &&& providers_text(names).subrange(0, pre.len() as int) == pre
            &&& providers_text(names).len() == pre.len() + total_len(esc) + 2 * (names.len() - 1)
            &&& forall|k: int|
                #![trigger names[k]]
                0 <= k < names.len() ==> providers_text(names).subrange(
                    pre.len() + total_len(esc.take(k)) + 2 * k,
                    pre.len() + total_len(esc.take(k)) + 2 * k + escape_text(names[k]).len(),
                ) == escape_text(names[k])
        },
{
    if names.len() > 0 {
        let pre = " \u{2014} available on "@;
        let esc = escaped_all(names);
        joined_with_commas_lists_every_item(esc);
        let jt = join_text(esc, ", "@);
        assert(providers_text(names) == pre + jt);
        lemma_concat_left(pre, jt, 0, pre.len() as int);
        assert(pre.subrange(0, pre.len() as int) =~= pre);
        assert forall|k: int| #![trigger names[k]] 0 <= k < names.len() implies (pre + jt).subrange(
            pre.len() + total_len(esc.take(k)) + 2 * k,
            pre.len() + total_len(esc.take(k)) + 2 * k + escape_text(names[k]).len(),
        ) == escape_text(names[k]) by {
            assert(esc[k] == escape_text(names[k]));
            lemma_total_len_take(esc, k);
            let a = total_len(esc.take(k)) + 2 * k;
            let b = a + esc[k].len();
            assert(jt.subrange(a, b) == esc[k]);
            lemma_concat_right(pre, jt, pre.len() + a, pre.len() + b);
        }
    }
}

} // verus!
