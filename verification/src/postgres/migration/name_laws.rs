//! What normalization promises of every migration description.

use vstd::prelude::*;

use super::create::{
    collapse_separators, is_description_char, is_separator, migration_file_name_spec,
    normalized_description, MigrationType,
};
use crate::text::{
    ascii_lowercase, decimal, decimal_digits, digit_char, is_ascii_alphanumeric, is_white_space,
    trim, trim_end, trim_start,
};

verus! {

/// Characters of a normalized description: lowercase ASCII letters, digits and `_`.
pub open spec fn is_name_char(c: char) -> bool {
    ('a' <= c && c <= 'z') || ('0' <= c && c <= '9') || c == '_'
}

/// A non-empty run of lowercase words joined by single underscores: no `_` at
/// either end and never two in a row.
pub open spec fn is_file_name_safe(s: Seq<char>) -> bool {
    &&& s.len() > 0
    &&& forall|i: int| 0 <= i < s.len() ==> is_name_char(#[trigger] s[i])
    &&& s[0] != '_'
    &&& s.last() != '_'
    &&& forall|i: int| 0 <= i < s.len() - 1 ==> !(#[trigger] s[i] == '_' && s[i + 1] == '_')
}

proof fn lemma_lowercase_is_name_char(c: char)
    requires
        is_ascii_alphanumeric(c),
    ensures
        is_name_char(ascii_lowercase(c)),
        ascii_lowercase(c) != '_',
{
}

proof fn lemma_collapse_is_safe(s: Seq<char>)
    requires
        forall|i: int| 0 <= i < s.len() ==> is_description_char(#[trigger] s[i]),
    ensures
        collapse_separators(s).len() == 0 || is_file_name_safe(collapse_separators(s)),
    decreases s.len(),
{
    if s.len() > 0 {
        let init = s.drop_last();
        let c = s.last();
        assert forall|i: int| 0 <= i < init.len() implies is_description_char(#[trigger] init[i]) by {
            assert(init[i] == s[i]);
        }
        lemma_collapse_is_safe(init);
        let prev = collapse_separators(init);
        if !is_separator(c) {
            assert(is_description_char(s[s.len() - 1]));
            lemma_lowercase_is_name_char(c);
            let l = ascii_lowercase(c);
            if init.len() > 0 && is_separator(init.last()) && prev.len() > 0 {
                let r = prev.push('_').push(l);
                assert(r[0] == prev[0]);
                assert forall|i: int| 0 <= i < r.len() implies is_name_char(#[trigger] r[i]) by {
                    if i < prev.len() {
                        assert(r[i] == prev[i]);
                    }
                }
                assert forall|i: int| 0 <= i < r.len() - 1 implies !(#[trigger] r[i] == '_' && r[i
                    + 1] == '_') by {
                    if i < prev.len() - 1 {
                        assert(r[i] == prev[i] && r[i + 1] == prev[i + 1]);
                    } else if i == prev.len() - 1 {
                        assert(r[i] == prev.last());
                    }
                }
            } else {
                let r = prev.push(l);
                if prev.len() > 0 {
                    assert(r[0] == prev[0]);
                }
                assert forall|i: int| 0 <= i < r.len() implies is_name_char(#[trigger] r[i]) by {
                    if i < prev.len() {
                        assert(r[i] == prev[i]);
                    }
                }
                assert forall|i: int| 0 <= i < r.len() - 1 implies !(#[trigger] r[i] == '_' && r[i
                    + 1] == '_') by {
                    if i < prev.len() - 1 {
                        assert(r[i] == prev[i] && r[i + 1] == prev[i + 1]);
                    }
                }
            }
        }
    }
}

/// On lowercase words joined by single underscores (possibly with one trailing
/// `_`), collapsing only drops that trailing `_`.
proof fn lemma_collapse_of_name(s: Seq<char>)
    requires
        forall|i: int| 0 <= i < s.len() ==> is_name_char(#[trigger] s[i]),
        s.len() > 0 ==> s[0] != '_',
        forall|i: int| 0 <= i < s.len() - 1 ==> !(#[trigger] s[i] == '_' && s[i + 1] == '_'),
    ensures
        collapse_separators(s) == (if s.len() > 0 && s.last() == '_' {
            s.drop_last()
        } else {
            s
        }),
    decreases s.len(),
{
    if s.len() > 0 {
        let init = s.drop_last();
        let c = s.last();
        assert forall|i: int| 0 <= i < init.len() implies is_name_char(#[trigger] init[i]) by {
            assert(init[i] == s[i]);
        }
        assert forall|i: int| 0 <= i < init.len() - 1 implies !(#[trigger] init[i] == '_' && init[i
            + 1] == '_') by {
            assert(init[i] == s[i] && init[i + 1] == s[i + 1]);
        }
        if init.len() > 0 {
            assert(init[0] == s[0]);
        }
        lemma_collapse_of_name(init);
        assert(is_name_char(s[s.len() - 1]));
        if c == '_' {
            if init.len() > 0 {
                assert(!(s[s.len() - 2] == '_' && s[s.len() - 1] == '_'));
                assert(init.last() != '_');
            }
            assert(collapse_separators(s) =~= s.drop_last());
        } else {
            assert(ascii_lowercase(c) == c);
            if init.len() > 0 && init.last() == '_' {
                assert(init.len() > 1);
                assert(init.drop_last().len() > 0);
                assert(init.drop_last().push('_').push(c) =~= s);
            } else {
                assert(init.push(c) =~= s);
            }
        }
    }
}

/// Every description that normalizes gives a file-name-safe word part: a
/// non-empty run of lowercase ASCII words joined by single underscores.
pub proof fn law_normalized_description_is_file_name_safe(d: Seq<char>)
    ensures
        normalized_description(d) matches Ok(s) ==> is_file_name_safe(s),
{
    let t = trim(d);
    if normalized_description(d) is Ok {
        assert(!(exists|i: int| 0 <= i < t.len() && !is_description_char(#[trigger] t[i])));
        lemma_collapse_is_safe(t);
        let j = choose|j: int| 0 <= j < t.len() && is_ascii_alphanumeric(#[trigger] t[j]);
        super::create::lemma_collapse_empty(t);
        assert(!is_separator(t[j]));
    }
}

/// Normalizing is idempotent: a normalized description normalizes to itself.
pub proof fn law_normalization_is_idempotent(d: Seq<char>)
    ensures
        normalized_description(d) matches Ok(s) ==> normalized_description(s) == Ok::<
            Seq<char>,
            crate::postgres::migration::CreateError,
        >(s),
{
    law_normalized_description_is_file_name_safe(d);
    if let Ok(s) = normalized_description(d) {
        assert(is_name_char(s[0]) && is_name_char(s.last()));
        assert(!is_white_space(s[0]));
        assert(trim_start(s) == s);
        assert(!is_white_space(s.last()));
        assert(trim_end(s) == s);
        assert(trim(s) == s);
        assert forall|i: int| 0 <= i < s.len() implies is_description_char(#[trigger] s[i]) by {
            assert(is_name_char(s[i]));
        }
        assert(is_ascii_alphanumeric(s[0]));
        lemma_collapse_of_name(s);
    }
}

proof fn lemma_digits_have_no_underscore(n: nat)
    ensures
        forall|i: int| 0 <= i < decimal_digits(n).len() ==> #[trigger] decimal_digits(n)[i] != '_',
    decreases n,
{
    if n < 10 {
        assert(digit_char(n as int) != '_');
    } else {
        lemma_digits_have_no_underscore(n / 10);
        let d = (n % 10) as int;
        assert(digit_char(d) != '_');
        let s = decimal_digits(n);
        assert forall|i: int| 0 <= i < s.len() implies #[trigger] s[i] != '_' by {
            if i < s.len() - 1 {
                assert(s[i] == decimal_digits(n / 10)[i]);
            }
        }
    }
}

/// A migration file name splits back at its first `_`: before it stands the
/// decimal version, after it the description and the suffix.
pub proof fn law_file_name_splits_at_first_underscore(
    version: i64,
    description: Seq<char>,
    migration_type: MigrationType,
)
    ensures
        ({
            let name = migration_file_name_spec(version, description, migration_type);
            let k = decimal(version as int).len() as int;
            &&& name.take(k) == decimal(version as int)
            &&& name[k] == '_'
            &&& forall|i: int| 0 <= i < k ==> #[trigger] name[i] != '_'
            &&& name.skip(k + 1) == description + migration_type.suffix_spec()
        }),
{
    let v = version as int;
    let name = migration_file_name_spec(version, description, migration_type);
    let k = decimal(v).len() as int;
    if v < 0 {
        lemma_digits_have_no_underscore((-v) as nat);
        assert forall|i: int| 0 <= i < k implies #[trigger] decimal(v)[i] != '_' by {
            if i > 0 {
                assert(decimal(v)[i] == decimal_digits((-v) as nat)[i - 1]);
            }
        }
    } else {
        lemma_digits_have_no_underscore(v as nat);
    }
    assert forall|i: int| 0 <= i < k implies #[trigger] name[i] != '_' by {
        assert(name[i] == decimal(v)[i]);
    }
    assert(name.take(k) =~= decimal(v));
    assert(name.skip(k + 1) =~= description + migration_type.suffix_spec());
}

/// The normalized form of a description made of ASCII letters, digits and
/// single spaces: every uppercase letter lowercased, every space an `_`.
pub open spec fn plain_words_normalized(d: Seq<char>) -> Seq<char> {
    Seq::new(
        d.len(),
        |i: int|
            if d[i] == ' ' {
                '_'
            } else if 'A' <= d[i] && d[i] <= 'Z' {
                ((d[i] as u32) + 32) as char
            } else {
                d[i]
            },
    )
}

/// Characters of a plain description: ASCII letters, digits and the space.
pub open spec fn is_plain_word_char(c: char) -> bool {
    ('0' <= c && c <= '9') || ('a' <= c && c <= 'z') || ('A' <= c && c <= 'Z') || c == ' '
}

proof fn lemma_collapse_of_plain_words(s: Seq<char>)
    requires
        forall|i: int| 0 <= i < s.len() ==> is_plain_word_char(#[trigger] s[i]),
        s.len() > 0 ==> s[0] != ' ',
        forall|i: int| 0 <= i < s.len() - 1 ==> !(#[trigger] s[i] == ' ' && s[i + 1] == ' '),
    ensures
        collapse_separators(s) == (if s.len() > 0 && s.last() == ' ' {
            plain_words_normalized(s).drop_last()
        } else {
            plain_words_normalized(s)
        }),
    decreases s.len(),
{
    if s.len() > 0 {
        let init = s.drop_last();
        let c = s.last();
        assert forall|i: int| 0 <= i < init.len() implies is_plain_word_char(#[trigger] init[i]) by {
            assert(init[i] == s[i]);
        }
        assert forall|i: int| 0 <= i < init.len() - 1 implies !(#[trigger] init[i] == ' ' && init[i
            + 1] == ' ') by {
            assert(init[i] == s[i] && init[i + 1] == s[i + 1]);
        }
        if init.len() > 0 {
            assert(init[0] == s[0]);
        }
        lemma_collapse_of_plain_words(init);
        assert(is_plain_word_char(s[s.len() - 1]));
        assert(plain_words_normalized(s).drop_last() =~= plain_words_normalized(init));
        if c == ' ' {
            if init.len() > 0 {
                assert(!(s[s.len() - 2] == ' ' && s[s.len() - 1] == ' '));
                assert(init.last() != ' ');
            }
        } else {
            assert(ascii_lowercase(c) == plain_words_normalized(s).last());
            if init.len() > 0 && init.last() == ' ' {
                assert(init.len() > 1);
                assert(plain_words_normalized(init).last() == '_');
                assert(plain_words_normalized(init).drop_last().push('_').push(ascii_lowercase(c))
                    =~= plain_words_normalized(s));
            } else {
                assert(plain_words_normalized(init).push(ascii_lowercase(c)) =~= plain_words_normalized(
                    s,
                ));
            }
        }
    }
}

/// Every description of ASCII letters (`A`-`Z`, `a`-`z`) and digits, in words
/// separated by single spaces, normalizes: the result is the description with
/// each letter lowercased and each space turned into `_`.
pub proof fn law_plain_words_normalize(d: Seq<char>)
    requires
        d.len() > 0,
        forall|i: int| 0 <= i < d.len() ==> is_plain_word_char(#[trigger] d[i]),
        d[0] != ' ',
        d.last() != ' ',
        forall|i: int| 0 <= i < d.len() - 1 ==> !(#[trigger] d[i] == ' ' && d[i + 1] == ' '),
    ensures
        normalized_description(d) == Ok::<Seq<char>, crate::postgres::migration::CreateError>(
            plain_words_normalized(d),
        ),
{
    assert(is_plain_word_char(d[0]) && is_plain_word_char(d[d.len() - 1]));
    assert(!is_white_space(d[0]));
    assert(trim_start(d) == d);
    assert(!is_white_space(d.last()));
    assert(trim_end(d) == d);
    assert(trim(d) == d);
    assert forall|i: int| 0 <= i < d.len() implies is_description_char(#[trigger] d[i]) by {
        assert(is_plain_word_char(d[i]));
    }
    assert(is_ascii_alphanumeric(d[0]));
    lemma_collapse_of_plain_words(d);
}

} // verus!
