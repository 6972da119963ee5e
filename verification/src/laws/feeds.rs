//! Subscriptions, and the profiles that they fill.

use crate::number;
use crate::profile;
use crate::profile::{ProfileExtra, ProfileItem};
use crate::subscription;
use crate::subscription::{Header, ImportResult};
use crate::laws::words;
use crate::text;
use vstd::prelude::*;

verus! {

/// Figures as a server writes them: `key=number`, with `; ` between them.
pub open spec fn figures_text(fields: Seq<(Seq<char>, nat)>) -> Seq<char>
    decreases fields.len(),
{
    if fields.len() == 0 {
        seq![]
    } else {
        let first = fields[0].0 + seq!['='] + number::dec(fields[0].1);
        if fields.len() == 1 {
            first
        } else {
            first + seq![';'] + (seq![' '] + figures_text(fields.skip(1)))
        }
    }
}

/// Whether figures can be written so: the keys hold no white space and no separator, and the
/// numbers fit.
pub open spec fn can_be_written(fields: Seq<(Seq<char>, nat)>) -> bool {
    forall|i: int|
        0 <= i < fields.len() ==> {
            &&& words::is_word((#[trigger] fields[i]).0)
            &&& !fields[i].0.contains('=')
            &&& !fields[i].0.contains(';')
            &&& fields[i].1 <= u64::MAX
        }
}

proof fn lemma_figure(lead: Seq<char>, key: Seq<char>, n: nat)
    requires
        lead.len() == 0 || lead == seq![' '],
        words::is_word(key),
        !key.contains('='),
        !key.contains(';'),
        n <= u64::MAX,
    ensures
        ({
            let p = lead + (key + seq!['='] + number::dec(n));
            let at = text::find_char(p, '=') as int;
            &&& !p.contains(';')
            &&& at < p.len()
            &&& text::trimmed(p.take(at)) == key
            &&& number::number_of(text::trimmed(p.skip(at + 1)), u64::MAX as nat) == Some(n)
        }),
{
    let d = number::dec(n);
    let p = lead + (key + seq!['='] + d);
    let head = lead + key;
    number::lemma_dec_digits(n);
    number::law_numeral_round_trip(n, u64::MAX as nat);
    assert forall|i: int| 0 <= i < d.len() implies '0' <= #[trigger] d[i] <= '9' by {
        assert(number::is_digit(d[i]));
    }
    assert forall|i: int| 0 <= i < head.len() implies head[i] != '=' && head[i] != ';' by {
        if i >= lead.len() {
            assert(key.contains(key[i - lead.len()]));
            assert(head[i] == key[i - lead.len()]);
        }
    }
    assert forall|i: int| 0 <= i < p.len() implies p[i] != ';' by {
        if i < head.len() {
            assert(p[i] == head[i]);
        } else if i > head.len() {
            assert(p[i] == d[i - head.len() - 1]);
        }
    }
    assert(p =~= head + seq!['='] + d);
    words::lemma_first_at(head, '=', d);
    assert(p.take(head.len() as int) =~= head);
    assert(p.skip(head.len() as int + 1) =~= d);
    assert(!text::is_space(key[0]) && !text::is_space(key[key.len() - 1]));
    words::law_trim_keeps(key);
    if lead.len() == 0 {
        assert(head =~= key);
    }
    assert('0' <= d[0] <= '9' && '0' <= d[d.len() - 1] <= '9');
    words::law_trim_keeps(d);
}

/// The number of the first figure with a key.
pub open spec fn figure_under(fields: Seq<(Seq<char>, nat)>, key: Seq<char>) -> Option<nat>
    decreases fields.len(),
{
    if fields.len() == 0 {
        None
    } else if fields[0].0 == key {
        Some(fields[0].1)
    } else {
        figure_under(fields.skip(1), key)
    }
}

proof fn lemma_figures(lead: Seq<char>, fields: Seq<(Seq<char>, nat)>, key: Seq<char>)
    requires
        lead.len() == 0 || lead == seq![' '],
        can_be_written(fields),
    ensures
        subscription::kv_number(text::parts_of(lead + figures_text(fields), ';'), key)
            == figure_under(fields, key),
    decreases fields.len(),
{
    let all = lead + figures_text(fields);
    if fields.len() == 0 {
        assert(all =~= lead);
        assert forall|i: int| 0 <= i < all.len() implies all[i] != ';' && all[i] != '=' by {}
        words::lemma_parts(all, ';', seq![]);
        let parts = text::parts_of(all, ';');
        text::lemma_find_char(all, '=');
        assert(parts[0] == all);
        assert(parts.skip(1).len() == 0);
        assert(subscription::kv_number(parts.skip(1), key) is None);
    } else {
        let (k, n) = fields[0];
        assert(words::is_word(fields[0].0));
        let p = lead + (k + seq!['='] + number::dec(n));
        let rest = fields.skip(1);
        lemma_figure(lead, k, n);
        assert forall|i: int| 0 <= i < rest.len() implies {
            &&& words::is_word((#[trigger] rest[i]).0)
            &&& !rest[i].0.contains('=')
            &&& !rest[i].0.contains(';')
            &&& rest[i].1 <= u64::MAX
        } by {
            assert(rest[i] == fields[i + 1]);
        }
        let parts = text::parts_of(all, ';');
        if fields.len() == 1 {
            assert(all =~= p);
            words::lemma_parts(p, ';', seq![]);
            assert(parts.skip(1).len() == 0);
            assert(subscription::kv_number(parts.skip(1), key) is None);
            assert(rest.len() == 0);
        } else {
            let tail = seq![' '] + figures_text(rest);
            assert(all =~= p + seq![';'] + tail);
            words::lemma_parts(p, ';', tail);
            assert(parts.skip(1) =~= text::parts_of(tail, ';'));
            lemma_figures(seq![' '], rest, key);
        }
        assert(parts[0] == p);
    }
}

/// Every figure that a server writes is read back, in the full range of 64 bits, wherever it stands
/// among the others; and under a key that is not there nothing is read.
pub proof fn law_figures_are_read(fields: Seq<(Seq<char>, nat)>, key: Seq<char>, i: int)
    requires
        can_be_written(fields),
    ensures
        0 <= i < fields.len() && fields[i].0 == key && (forall|j: int|
            0 <= j < i ==> (#[trigger] fields[j]).0 != key) ==> subscription::kv_number(
            text::parts_of(figures_text(fields), ';'),
            key,
        ) == Some(fields[i].1),
        (forall|j: int| 0 <= j < fields.len() ==> (#[trigger] fields[j]).0 != key)
            ==> subscription::kv_number(text::parts_of(figures_text(fields), ';'), key) is None,
{
    lemma_figures(seq![], fields, key);
    assert(Seq::<char>::empty() + figures_text(fields) =~= figures_text(fields));
    lemma_figure_under(fields, key, i);
}

proof fn lemma_figure_under(fields: Seq<(Seq<char>, nat)>, key: Seq<char>, i: int)
    ensures
        0 <= i < fields.len() && fields[i].0 == key && (forall|j: int|
            0 <= j < i ==> (#[trigger] fields[j]).0 != key) ==> figure_under(fields, key) == Some(
            fields[i].1,
        ),
        (forall|j: int| 0 <= j < fields.len() ==> (#[trigger] fields[j]).0 != key) ==> figure_under(
            fields,
            key,
        ) is None,
    decreases fields.len(),
{
    if fields.len() > 0 {
        let rest = fields.skip(1);
        assert(forall|j: int| 0 <= j < rest.len() ==> rest[j] == fields[j + 1]);
        lemma_figure_under(rest, key, i - 1);
        if 0 < i < fields.len() && (forall|j: int| 0 <= j < i ==> (#[trigger] fields[j]).0 != key) {
            assert(fields[0].0 != key);
            assert forall|j: int| 0 <= j < i - 1 implies (#[trigger] rest[j]).0 != key by {
                assert(fields[j + 1].0 != key);
            }
        }
        if forall|j: int| 0 <= j < fields.len() ==> (#[trigger] fields[j]).0 != key {
            assert(fields[0].0 != key);
            assert forall|j: int| 0 <= j < rest.len() implies (#[trigger] rest[j]).0 != key by {
                assert(fields[j + 1].0 != key);
            }
        }
    }
}

/// The header that tells how much of a plan is used, whatever stands before its name and in
/// whatever case it is written.
pub open spec fn tells_usage(h: Header) -> bool {
    &&& h.value is Some
    &&& exists|front: Seq<char>| text::lowered(h.name@) == #[trigger] (front + "subscription-userinfo"@)
}

proof fn lemma_tells_usage(h: Header)
    ensures
        subscription::is_userinfo(h) == tells_usage(h),
{
    let low = text::lowered(h.name@);
    let key = "subscription-userinfo"@;
    if text::has_suffix(low, key) {
        let at = low.len() - key.len();
        assert(low =~= low.take(at) + low.subrange(at, at + key.len()));
        assert(low == low.take(at) + key);
    }
    if exists|front: Seq<char>| low == #[trigger] (front + key) {
        let front = choose|front: Seq<char>| low == #[trigger] (front + key);
        assert(low.subrange(low.len() - key.len(), low.len() as int) =~= key);
    }
}

proof fn lemma_userinfo(headers: Seq<Header>, i: int)
    ensures
        0 <= i < headers.len() && tells_usage(headers[i]) && (forall|j: int|
            0 <= j < i ==> !#[trigger] tells_usage(headers[j])) ==> subscription::userinfo(headers)
            == text::opt_text(headers[i].value),
        (forall|j: int| 0 <= j < headers.len() ==> !#[trigger] tells_usage(headers[j]))
            ==> subscription::userinfo(headers) is None,
    decreases headers.len(),
{
    if headers.len() > 0 {
        lemma_tells_usage(headers[0]);
        let rest = headers.skip(1);
        assert(forall|j: int| 0 <= j < rest.len() ==> rest[j] == headers[j + 1]);
        lemma_userinfo(rest, i - 1);
        if 0 < i < headers.len() && (forall|j: int|
            0 <= j < i ==> !#[trigger] tells_usage(headers[j])) {
            assert(!tells_usage(headers[0]));
            assert forall|j: int| 0 <= j < i - 1 implies !#[trigger] tells_usage(rest[j]) by {
                assert(!tells_usage(headers[j + 1]));
            }
        }
        if forall|j: int| 0 <= j < headers.len() ==> !#[trigger] tells_usage(headers[j]) {
            assert(!tells_usage(headers[0]));
            assert forall|j: int| 0 <= j < rest.len() implies !#[trigger] tells_usage(rest[j]) by {
                assert(!tells_usage(headers[j + 1]));
            }
        }
    }
}

/// The usage that the first such header writes down is the usage that the profile shows: what was
/// sent up and down, the limit and the day it ends.
pub proof fn law_usage_is_read(
    headers: Seq<Header>,
    i: int,
    upload: u64,
    download: u64,
    total: u64,
    expire: u64,
    extra: ProfileExtra,
)
    requires
        0 <= i < headers.len(),
        tells_usage(headers[i]),
        forall|j: int| 0 <= j < i ==> !#[trigger] tells_usage(headers[j]),
        headers[i].value->0@ == figures_text(
            seq![
                ("upload"@, upload as nat),
                ("download"@, download as nat),
                ("total"@, total as nat),
                ("expire"@, expire as nat),
            ],
        ),
    ensures
        subscription::userinfo(headers) == Some(headers[i].value->0@),
        subscription::extra_of(extra, subscription::userinfo(headers)->0) <==> extra == (
        ProfileExtra { upload, download, total, expire }),
{
    lemma_userinfo(headers, i);
    let fields = seq![
        ("upload"@, upload as nat),
        ("download"@, download as nat),
        ("total"@, total as nat),
        ("expire"@, expire as nat),
    ];
    reveal_strlit("upload");
    reveal_strlit("download");
    reveal_strlit("total");
    reveal_strlit("expire");
    lemma_plain("upload"@);
    lemma_plain("download"@);
    lemma_plain("total"@);
    lemma_plain("expire"@);
    assert("upload"@[0] == 'u');
    assert("download"@[0] == 'd');
    assert("total"@[0] == 't');
    assert("expire"@[0] == 'e');
    assert(can_be_written(fields));
    law_figures_are_read(fields, "upload"@, 0);
    law_figures_are_read(fields, "download"@, 1);
    law_figures_are_read(fields, "total"@, 2);
    law_figures_are_read(fields, "expire"@, 3);
}

/// A word of letters can be a key.
proof fn lemma_plain(w: Seq<char>)
    requires
        w.len() > 0,
        forall|i: int| 0 <= i < w.len() ==> 'a' <= #[trigger] w[i] <= 'z',
    ensures
        words::is_word(w),
        !w.contains('='),
        !w.contains(';'),
{
    assert forall|i: int| 0 <= i < w.len() implies !text::is_space(#[trigger] w[i]) by {
        words::law_white_space(w[i]);
    }
}

/// No header, no usage.
pub proof fn law_no_usage_without_header(headers: Seq<Header>)
    requires
        forall|j: int| 0 <= j < headers.len() ==> !#[trigger] tells_usage(headers[j]),
    ensures
        subscription::userinfo(headers) is None,
{
    lemma_userinfo(headers, 0);
}

/// An update takes over the usage that was fetched and the time, and the name where the profile had
/// none; all else stays.
pub proof fn law_update_takes_over(p: ProfileItem, result: ImportResult, updated: u64)
    ensures
        ({
            let after = profile::updated_profile(p, result, updated);
            &&& after.extra == result.extra
            &&& after.updated == updated
            &&& after.uid == p.uid
            &&& after.file == p.file
            &&& after.url == p.url
            &&& (exists|k: int| 0 <= k < p.name@.len() && !text::is_space(#[trigger] p.name@[k]))
                ==> after.name == p.name
            &&& (forall|k: int| 0 <= k < p.name@.len() ==> text::is_space(#[trigger] p.name@[k]))
                ==> after.name == result.name
        }),
{
    let name = p.name@;
    words::law_trim(name);
    let (i, j) = choose|i: int, j: int|
        0 <= i <= j <= name.len() && text::trimmed(name) == #[trigger] name.subrange(i, j) && (
        forall|k: int| (0 <= k < i || j <= k < name.len()) ==> text::is_space(#[trigger] name[k]));
    if forall|k: int| 0 <= k < name.len() ==> text::is_space(#[trigger] name[k]) {
        if i < j {
            assert(name.subrange(i, j)[0] == name[i]);
        }
    }
}

/// Two updates leave what the second one fetched, and the name of the first where the profile had
/// none and the first named it.
pub proof fn law_later_update_stands(
    p: ProfileItem,
    first: ImportResult,
    second: ImportResult,
    at: u64,
    later: u64,
)
    ensures
        ({
            let after = profile::updated_profile(
                profile::updated_profile(p, first, at),
                second,
                later,
            );
            &&& after.extra == second.extra
            &&& after.updated == later
            &&& after.url == p.url && after.uid == p.uid && after.file == p.file
        }),
{
}

/// What stands behind the last occurrence of a text.
pub proof fn law_behind_the_last(a: Seq<char>, p: Seq<char>, t: Seq<char>)
    requires
        p.len() > 0,
        !t.contains(p.last()),
    ensures
        text::after_last(a + p + t, p) == t,
    decreases t.len(),
{
    lemma_last_end(a, p, t);
    assert((a + p + t).skip(a.len() as int + p.len()) =~= t);
}

proof fn lemma_last_end(a: Seq<char>, p: Seq<char>, t: Seq<char>)
    requires
        p.len() > 0,
        !t.contains(p.last()),
    ensures
        text::last_end(a + p + t, p) == a.len() + p.len(),
    decreases t.len(),
{
    let s = a + p + t;
    if t.len() > 0 {
        let u = t.drop_last();
        assert forall|i: int| 0 <= i < u.len() implies u[i] != p.last() by {
            assert(t.contains(t[i]));
        }
        lemma_last_end(a, p, u);
        assert(s.drop_last() =~= a + p + u);
        if text::has_suffix(s, p) {
            let at = s.len() - p.len();
            assert(s.subrange(at, at + p.len())[p.len() - 1] == s[s.len() - 1]);
            assert(s[s.len() - 1] == t[t.len() - 1]);
            assert(t.contains(t[t.len() - 1]));
        }
    } else {
        assert(s =~= a + p);
        let at = s.len() - p.len();
        assert(s.subrange(at, at + p.len()) =~= p);
    }
}

/// Whether a text can be the name of a file in a header: it holds no separator and no quote, and
/// no white space at its ends.
pub open spec fn is_file_name(name: Seq<char>) -> bool {
    &&& name.len() > 0
    &&& !name.contains(';')
    &&& !name.contains('"')
    &&& !text::is_space(name[0])
    &&& !text::is_space(name.last())
}

proof fn lemma_attachment(field: Seq<char>)
    requires
        !field.contains(';'),
        field.len() > 0,
        !text::is_space(field[0]),
        !text::is_space(field.last()),
    ensures
        text::parts_of("attachment; "@ + field, ';') == seq!["attachment"@, seq![' '] + field],
        text::after_prefix(text::trimmed("attachment"@), "filename="@) is None,
        text::after_prefix(text::trimmed("attachment"@), "filename*="@) is None,
        text::trimmed(seq![' '] + field) == field,
{
    reveal_strlit("attachment; ");
    reveal_strlit("attachment");
    reveal_strlit("filename=");
    reveal_strlit("filename*=");
    let rest = seq![' '] + field;
    assert("attachment; "@ + field =~= "attachment"@ + seq![';'] + rest);
    words::lemma_parts("attachment"@, ';', rest);
    assert forall|i: int| 0 <= i < rest.len() implies rest[i] != ';' by {
        if i > 0 {
            assert(field.contains(field[i - 1]));
        }
    }
    words::lemma_parts(rest, ';', seq![]);
    assert(text::parts_of("attachment; "@ + field, ';') =~= seq!["attachment"@, rest]);
    assert("attachment"@[0] == 'a' && "attachment"@[9] == 't');
    words::law_trim_keeps("attachment"@);
    words::law_trim_keeps(field);
    let s = "attachment"@;
    if text::has_prefix(s, "filename="@) {
        assert(s.subrange(0, 9)[0] == s[0]);
    }
    if text::has_prefix(s, "filename*="@) {
        assert(s.subrange(0, 10)[0] == s[0]);
    }
}

/// The name of a file that a header gives, plain or quoted, is the name of the profile.
pub proof fn law_file_names_are_read(name: Seq<char>)
    requires
        is_file_name(name),
    ensures
        subscription::disposition_name(
            text::parts_of("attachment; "@ + ("filename="@ + name), ';'),
        ) == Some(name),
        subscription::disposition_name(
            text::parts_of("attachment; "@ + ("filename="@ + (seq!['"'] + name + seq!['"'])), ';'),
        ) == Some(name),
        subscription::disposition_name(seq![]) is None,
{
    assert(name.contains(name[0]) && name.contains(name.last()));
    lemma_named("filename="@, name);
    let quoted = seq!['"'] + name + seq!['"'];
    assert forall|i: int| 0 <= i < quoted.len() implies quoted[i] != ';' by {
        if 0 < i < quoted.len() - 1 {
            assert(quoted[i] == name[i - 1]);
            assert(name.contains(name[i - 1]));
        }
    }
    lemma_named("filename="@, quoted);
    words::law_without_leading(0, '"', name);
    words::law_without_trailing(0, '"', name);
    assert(Seq::new(0, |i: int| '"') + name =~= name);
    assert(name + Seq::new(0, |i: int| '"') =~= name);
    let open = name + seq!['"'];
    words::law_without_leading(1, '"', open);
    words::law_without_trailing(1, '"', name);
    assert(Seq::new(1, |i: int| '"') + open =~= quoted);
    assert(name + Seq::new(1, |i: int| '"') =~= open);
}

proof fn lemma_named(key: Seq<char>, value: Seq<char>)
    requires
        key == "filename="@,
        value.len() > 0,
        !value.contains(';'),
        !text::is_space(value.last()),
    ensures
        subscription::disposition_name(text::parts_of("attachment; "@ + (key + value), ';'))
            == Some(text::without_trailing(text::without_leading(value, '"'), '"')),
{
    reveal_strlit("filename=");
    let field = key + value;
    assert forall|i: int| 0 <= i < field.len() implies field[i] != ';' by {
        if i >= 9 {
            assert(field[i] == value[i - 9]);
            assert(value.contains(value[i - 9]));
        }
    }
    assert(field[0] == 'f' && field.last() == value.last());
    lemma_attachment(field);
    assert(field.subrange(0, 9) =~= key);
    assert(field.skip(9) =~= value);
    let parts = text::parts_of("attachment; "@ + field, ';');
    assert(parts[0] == "attachment"@ && parts.skip(1)[0] == seq![' '] + field);
    reveal_with_fuel(subscription::disposition_name, 3);
}

/// The same of a name that is written for all languages: what is behind its last quotes is decoded.
pub proof fn law_coded_file_names_are_read(coded: Seq<char>)
    requires
        coded.len() > 0,
        !coded.contains(';'),
        !coded.contains('\''),
        !text::is_space(coded.last()),
        crate::weburl::percent_decoded(coded) is Some,
    ensures
        subscription::disposition_name(
            text::parts_of("attachment; "@ + ("filename*=UTF-8''"@ + coded), ';'),
        ) == crate::weburl::percent_decoded(coded),
{
    reveal_strlit("filename*=UTF-8''");
    reveal_strlit("filename*=");
    reveal_strlit("filename=");
    reveal_strlit("UTF-8");
    reveal_strlit("''");
    let field = "filename*=UTF-8''"@ + coded;
    assert forall|i: int| 0 <= i < field.len() implies field[i] != ';' by {
        if i >= 17 {
            assert(field[i] == coded[i - 17]);
            assert(coded.contains(coded[i - 17]));
        }
    }
    assert(field[0] == 'f' && field.last() == coded.last());
    lemma_attachment(field);
    assert(field.subrange(0, 10) =~= "filename*="@);
    assert(field.skip(10) =~= "UTF-8"@ + "''"@ + coded);
    law_behind_the_last("UTF-8"@, "''"@, coded);
    if text::has_prefix(field, "filename="@) {
        assert(field.subrange(0, 9)[8] == field[8]);
        assert("filename="@[8] == '=' && field[8] == '*');
    }
    let parts = text::parts_of("attachment; "@ + field, ';');
    assert(parts[0] == "attachment"@ && parts.skip(1)[0] == seq![' '] + field);
    reveal_with_fuel(subscription::disposition_name, 3);
}

/// Of several headers with one name, in whatever case, the first one counts.
pub proof fn law_first_header(headers: Seq<Header>, name: Seq<char>, i: int)
    ensures
        0 <= i < headers.len() && text::lowered(headers[i].name@) == name && (forall|j: int|
            0 <= j < i ==> text::lowered((#[trigger] headers[j]).name@) != name)
            ==> subscription::header_text(headers, name) == text::opt_text(headers[i].value),
        (forall|j: int| 0 <= j < headers.len() ==> text::lowered((#[trigger] headers[j]).name@) != name)
            ==> subscription::header_text(headers, name) is None,
    decreases headers.len(),
{
    lemma_header_index(headers, name);
    let n = subscription::header_index(headers, name);
    assert(0 <= i < n ==> text::lowered(headers[i].name@) != name);
    assert(0 <= n < i && n < headers.len() ==> text::lowered(headers[n].name@) == name);
}

proof fn lemma_header_index(headers: Seq<Header>, name: Seq<char>)
    ensures
        ({
            let n = subscription::header_index(headers, name);
            &&& 0 <= n <= headers.len()
            &&& n < headers.len() ==> text::lowered(headers[n].name@) == name
            &&& forall|j: int| 0 <= j < n ==> text::lowered((#[trigger] headers[j]).name@) != name
        }),
    decreases headers.len(),
{
    if headers.len() > 0 && text::lowered(headers[0].name@) != name {
        let rest = headers.skip(1);
        lemma_header_index(rest, name);
        let n = subscription::header_index(headers, name);
        assert forall|j: int| 0 <= j < n implies text::lowered((#[trigger] headers[j]).name@)
            != name by {
            if j > 0 {
                assert(rest[j - 1] == headers[j]);
            }
        }
    }
}

/// A profile gets the name of the file that the reply gives, or else the last part of the address,
/// or else a name that fits all.
pub proof fn law_profile_names(url: Seq<char>, headers: Seq<Header>, value: Seq<char>)
    ensures
        subscription::header_text(headers, "content-disposition"@) == Some(value)
            && subscription::disposition_name(text::parts_of(value, ';')) is Some
            ==> subscription::profile_name(url, headers) == subscription::disposition_name(
            text::parts_of(value, ';'),
        )->0,
        subscription::header_text(headers, "content-disposition"@) is None
            && crate::weburl::url_last_segment(url) is Some && crate::weburl::url_last_segment(
            url,
        )->0.len() > 0 ==> subscription::profile_name(url, headers)
            == crate::weburl::url_last_segment(url)->0,
        subscription::header_text(headers, "content-disposition"@) is None
            && crate::weburl::url_last_segment(url) is None ==> subscription::profile_name(
            url,
            headers,
        ) == "Remote Profile"@,
        subscription::segment_name(Some(seq![])) == "Remote Profile"@,
{
}

/// The document of a reply is its body without the marks of the byte order that lead it.
pub proof fn law_document(n: nat, body: Seq<char>)
    requires
        body.len() > 0 ==> body[0] != '\u{feff}',
    ensures
        subscription::document(Seq::new(n, |i: int| '\u{feff}') + body) == body,
        subscription::document(body) == body,
{
    words::law_without_leading(n, '\u{feff}', body);
    words::law_without_leading(0, '\u{feff}', body);
    assert(Seq::new(0, |i: int| '\u{feff}') + body =~= body);
}

/// A document is a subscription where it names proxies, or where to get them.
pub proof fn law_subscriptions_name_proxies(entries: Seq<(crate::yaml::Yaml, crate::yaml::Yaml)>)
    ensures
        subscription::names_proxies(entries) <==> crate::yaml::lookup(entries, "proxies"@) is Some
            || crate::yaml::lookup(entries, "proxy-providers"@) is Some,
{
}

/// From a file all its web links are imported, each without white space around it, in their order.
pub proof fn law_links(lines: Seq<Seq<char>>)
    ensures
        subscription::links_of(lines) == lines.map_values(|l: Seq<char>| text::trimmed(l)).filter(
            |t: Seq<char>|
                text::has_prefix(t, "http://"@) || text::has_prefix(t, "https://"@),
        ),
    decreases lines.len(),
{
    reveal(Seq::filter);
    let trim = |l: Seq<char>| text::trimmed(l);
    if lines.len() > 0 {
        let front = lines.drop_last();
        law_links(front);
        assert(lines.map_values(trim).drop_last() =~= front.map_values(trim));
        assert(lines.map_values(trim).last() == text::trimmed(lines.last()));
    } else {
        assert(lines.map_values(trim) =~= seq![]);
    }
}

/// Why a reply is no subscription, and why a profile cannot be updated, is said.
pub proof fn law_refusals_are_said(s: String)
    ensures
        subscription::ImportError::Status(s).spec_message()
            == "subscription request failed with status "@ + s@,
        subscription::ImportError::InvalidYaml.spec_message() == "invalid YAML subscription"@,
        subscription::ImportError::NoProxies.spec_message()
            == "subscription does not contain proxies or proxy-providers"@,
        profile::StoreError::HomeNotFound.spec_message() == "home directory not found"@,
        profile::StoreError::ProfileNotFound(s).spec_message() == "profile not found: "@ + s@,
        profile::StoreError::EmptyUrl(s).spec_message() == "profile has empty url: "@ + s@,
{
}

/// Where the state is kept, and what it is at first.
pub proof fn law_kept_state(
    p: profile::AppPaths,
    root: Seq<char>,
    platform: crate::config::Platform,
    state: profile::AppState,
)
    ensures
        p.are_at(root, platform) <==> p.root@ == root && p.platform == platform && p.state_file@
            == crate::paths::joined(platform, root, "state.yaml"@) && p.profiles_dir@
            == crate::paths::joined(platform, root, "profiles"@),
        state.is_initial() ==> state.current is None && state.profiles@.len() == 0
            && state.verge.are_initial(),
{
}

/// The first profile with a uid is the one that is meant.
pub proof fn law_profiles_by_uid(profiles: Seq<ProfileItem>, uid: Seq<char>, i: int)
    ensures
        0 <= i < profiles.len() && profiles[i].uid@ == uid && (forall|j: int|
            0 <= j < i ==> (#[trigger] profiles[j]).uid@ != uid) ==> profile::profile_index(
            profiles,
            uid,
        ) == i,
        (forall|j: int| 0 <= j < profiles.len() ==> (#[trigger] profiles[j]).uid@ != uid)
            ==> profile::profile_index(profiles, uid) == profiles.len(),
        0 <= i < profiles.len() ==> crate::update::uids_of(profiles)[i] == profiles[i].uid@,
        crate::update::uids_of(profiles).len() == profiles.len(),
{
    profile::lemma_profile_index(profiles, uid);
    let n = profile::profile_index(profiles, uid);
    assert(0 <= i < n ==> profiles[i].uid@ != uid);
    assert(0 <= n < i && n < profiles.len() ==> profiles[n].uid@ == uid);
}

/// Where the document of the profile is that a core of our own runs with.
pub proof fn law_running_document(store: profile::StateStore, i: int)
    ensures
        store.state.current is None && store.state.profiles@.len() > 0
            ==> crate::runtime::runtime_document(store) == Some(
            crate::paths::joined(
                store.paths.platform,
                store.paths.profiles_dir@,
                store.state.profiles@[0].file@,
            ),
        ),
        store.state.current is Some && 0 <= i < store.state.profiles@.len()
            && store.state.profiles@[i].uid@ == store.state.current->0@ && (forall|j: int|
            0 <= j < i ==> (#[trigger] store.state.profiles@[j]).uid@ != store.state.current->0@)
            ==> crate::runtime::runtime_document(store) == Some(
            crate::paths::joined(
                store.paths.platform,
                store.paths.profiles_dir@,
                store.state.profiles@[i].file@,
            ),
        ),
{
    if store.state.current is Some {
        law_profiles_by_uid(store.state.profiles@, store.state.current->0@, i);
    }
}

} // verus!
