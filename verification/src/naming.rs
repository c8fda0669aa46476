//! Names that no two runs share: temporary files and portal request tokens.
use crate::text::push_decimal;
use vstd::prelude::*;

verus! {

/// The text of [`unique_suffix`].
pub open spec fn suffix_text(process_id: u32, nanos: Option<u128>) -> Seq<char> {
    crate::text::decimal(process_id as nat) + seq!['-'] + crate::text::decimal(
        clock_value(nanos) as nat,
    )
}

/// A clock that stands before the epoch counts as standing at it.
pub open spec fn clock_value(nanos: Option<u128>) -> u128 {
    match nanos {
        Some(nanos) => nanos,
        None => 0,
    }
}

/// A suffix made of the id of the process and the nanoseconds since the epoch, if
/// the clock stands behind it.
pub fn unique_suffix(process_id: u32, nanos: Option<u128>) -> (suffix: String)
    ensures
        suffix@ == suffix_text(process_id, nanos),
        suffix@ == crate::text::decimal(process_id as nat) + "-"@ + crate::text::decimal(
            (match nanos {
                Some(nanos) => nanos as nat,
                None => 0,
            }),
        ),
{
    let mut suffix = String::new();
    push_decimal(&mut suffix, process_id as u128);
    proof {
        reveal_strlit("-");
        assert("-"@ =~= seq!['-']);
    }
    suffix.append("-");
    push_decimal(
        &mut suffix,
        match nanos {
            Some(nanos) => nanos,
            None => 0,
        },
    );
    suffix
}

/// The text of [`temp_png_name`].
pub open spec fn temp_name_text(source: Seq<char>, suffix: Seq<char>) -> Seq<char> {
    "computer-use-linux-"@ + source + "-"@ + suffix + ".png"@
}

/// The name of a temporary PNG file.
pub fn temp_png_name(source: &str, suffix: &str) -> (name: String)
    ensures
        name@ == temp_name_text(source@, suffix@),
        name@ == "computer-use-linux-"@ + source@ + "-"@ + suffix@ + ".png"@,
{
    let mut name = "computer-use-linux-".to_string();
    name.append(source);
    name.append("-");
    name.append(suffix);
    name.append(".png");
    name
}

/// The character, or an underscore for a dash.
pub open spec fn without_dash(c: char) -> char {
    if c == '-' {
        '_'
    } else {
        c
    }
}

fn replace_dashes(text: &str) -> (replaced: String)
    ensures
        replaced@ == text@.map_values(|c: char| without_dash(c)),
{
    let len: usize = text.unicode_len();
    let mut replaced = String::new();
    let mut i: usize = 0;
    proof {
        reveal_strlit("_");
    }
    while i < len
        invariant
            i <= len,
            len == text@.len(),
            "_"@ == seq!['_'],
            replaced@ == text@.take(i as int).map_values(|c: char| without_dash(c)),
        decreases len - i,
    {
        let ghost done = replaced@;
        if text.get_char(i) == '-' {
            replaced.append("_");
        } else {
            replaced.append(text.substring_char(i, i + 1));
        }
        i += 1;
        assert(replaced@ =~= done.push(without_dash(text@[i - 1])));
        assert(replaced@ =~= text@.take(i as int).map_values(|c: char| without_dash(c)));
    }
    assert(text@.take(len as int) =~= text@);
    replaced
}

/// The text of [`request_token`].
pub open spec fn token_text(process_id: u32, nanos: Option<u128>) -> Seq<char> {
    "computer_use_linux_"@ + suffix_text(process_id, nanos).map_values(
        |c: char| without_dash(c),
    )
}

/// A handle token for a portal request, made of the same numbers as
/// [`unique_suffix`].
pub fn request_token(process_id: u32, nanos: Option<u128>) -> (token: String)
    ensures
        token@ == token_text(process_id, nanos),
        token@ == "computer_use_linux_"@ + crate::text::decimal(process_id as nat) + "_"@
            + crate::text::decimal(
            (match nanos {
                Some(nanos) => nanos as nat,
                None => 0,
            }),
        ),
{
    proof {
        tokens_join_process_and_clock(process_id, nanos);
    }
    let mut token = "computer_use_linux_".to_string();
    let suffix = unique_suffix(process_id, nanos);
    token.append(replace_dashes(suffix.as_str()).as_str());
    token
}

/// Whether a portal takes the character in a handle token.
pub open spec fn is_token_char(c: char) -> bool {
    ||| '0' <= c <= '9'
    ||| 'a' <= c <= 'z'
    ||| 'A' <= c <= 'Z'
    ||| c == '_'
}

proof fn lemma_decimal_digits(n: nat)
    ensures
        crate::text::decimal(n).len() > 0,
        forall|i: int|
            0 <= i < crate::text::decimal(n).len() ==> '0' <= #[trigger] crate::text::decimal(n)[i]
                <= '9',
    decreases n,
{
    if n >= 10 {
        lemma_decimal_digits(n / 10);
    }
}

proof fn lemma_decimal_injective(a: nat, b: nat)
    requires
        crate::text::decimal(a) == crate::text::decimal(b),
    ensures
        a == b,
    decreases a,
{
    lemma_decimal_digits(a / 10);
    lemma_decimal_digits(b / 10);
    let left = crate::text::decimal(a);
    let right = crate::text::decimal(b);
    assert(left.last() == crate::text::digit_char(a % 10));
    assert(right.last() == crate::text::digit_char(b % 10));
    if a >= 10 {
        assert(right.len() >= 2);
        assert(left.drop_last() =~= crate::text::decimal(a / 10));
        assert(right.drop_last() =~= crate::text::decimal(b / 10));
        lemma_decimal_injective(a / 10, b / 10);
    } else {
        assert(left.len() == 1);
    }
}

/// Every handle token starts with the name of the program and holds no character
/// but letters, digits and underscores, so that a portal takes it.
pub proof fn request_tokens_are_portal_safe(process_id: u32, nanos: Option<u128>)
    ensures
        "computer_use_linux_"@.is_prefix_of(token_text(process_id, nanos)),
        forall|i: int|
            0 <= i < token_text(process_id, nanos).len() ==> is_token_char(
                #[trigger] token_text(process_id, nanos)[i],
            ),
{
    let prefix = "computer_use_linux_"@;
    let suffix = suffix_text(process_id, nanos);
    let token = token_text(process_id, nanos);
    reveal_strlit("computer_use_linux_");
    lemma_decimal_digits(process_id as nat);
    lemma_decimal_digits(clock_value(nanos) as nat);
    assert forall|i: int| 0 <= i < token.len() implies is_token_char(#[trigger] token[i]) by {
        if i < prefix.len() {
            assert(token[i] == prefix[i]);
        } else {
            assert(token[i] == without_dash(suffix[i - prefix.len()]));
        }
    }
}

/// Two suffixes are the same only where both the process and the time are, a
/// clock before the epoch counting as one that stands at it.
pub proof fn suffixes_tell_runs_apart(
    process_id: u32,
    nanos: Option<u128>,
    other_process_id: u32,
    other_nanos: Option<u128>,
)
    requires
        suffix_text(process_id, nanos) == suffix_text(other_process_id, other_nanos),
    ensures
        process_id == other_process_id,
        clock_value(nanos) == clock_value(other_nanos),
{
    let suffix = suffix_text(process_id, nanos);
    let first = crate::text::decimal(process_id as nat);
    let second = crate::text::decimal(other_process_id as nat);
    let last = crate::text::decimal(clock_value(nanos) as nat);
    let other_last = crate::text::decimal(clock_value(other_nanos) as nat);
    lemma_decimal_digits(process_id as nat);
    lemma_decimal_digits(other_process_id as nat);
    assert(suffix[first.len() as int] == '-');
    assert(suffix[second.len() as int] == '-');
    if first.len() < second.len() {
        assert(suffix[first.len() as int] == second[first.len() as int]);
    }
    if second.len() < first.len() {
        assert(suffix[second.len() as int] == first[second.len() as int]);
    }
    assert(first =~= suffix.take(first.len() as int));
    assert(second =~= suffix.take(first.len() as int));
    assert(last =~= suffix.skip((first.len() + 1) as int));
    assert(other_last =~= suffix.skip((first.len() + 1) as int));
    lemma_decimal_injective(process_id as nat, other_process_id as nat);
    lemma_decimal_injective(clock_value(nanos) as nat, clock_value(other_nanos) as nat);
}

/// Two temporary files for the same source have the same name only where both the
/// process and the time are the same.
pub proof fn temp_names_tell_runs_apart(
    source: Seq<char>,
    process_id: u32,
    nanos: Option<u128>,
    other_process_id: u32,
    other_nanos: Option<u128>,
)
    requires
        temp_name_text(source, suffix_text(process_id, nanos)) == temp_name_text(
            source,
            suffix_text(other_process_id, other_nanos),
        ),
    ensures
        process_id == other_process_id,
        clock_value(nanos) == clock_value(other_nanos),
{
    let suffix = suffix_text(process_id, nanos);
    let other = suffix_text(other_process_id, other_nanos);
    let before = "computer-use-linux-"@ + source + "-"@;
    let start = before.len() as int;
    assert(suffix =~= temp_name_text(source, suffix).subrange(start, start + suffix.len()));
    assert(other =~= temp_name_text(source, other).subrange(start, start + other.len()));
    assert(temp_name_text(source, suffix).len() == start + suffix.len() + ".png"@.len());
    assert(temp_name_text(source, other).len() == start + other.len() + ".png"@.len());
    suffixes_tell_runs_apart(process_id, nanos, other_process_id, other_nanos);
}

/// Two handle tokens are the same only where both the process and the time are.
pub proof fn tokens_tell_runs_apart(
    process_id: u32,
    nanos: Option<u128>,
    other_process_id: u32,
    other_nanos: Option<u128>,
)
    requires
        token_text(process_id, nanos) == token_text(other_process_id, other_nanos),
    ensures
        process_id == other_process_id,
        clock_value(nanos) == clock_value(other_nanos),
{
    let prefix = "computer_use_linux_"@;
    let token = token_text(process_id, nanos);
    let suffix = suffix_text(process_id, nanos);
    let other = suffix_text(other_process_id, other_nanos);
    lemma_decimal_digits(process_id as nat);
    lemma_decimal_digits(other_process_id as nat);
    lemma_decimal_digits(clock_value(nanos) as nat);
    lemma_decimal_digits(clock_value(other_nanos) as nat);
    assert(suffix.len() == token.len() - prefix.len());
    assert(other.len() == token.len() - prefix.len());
    assert forall|i: int| 0 <= i < suffix.len() implies suffix[i] == other[i] by {
        assert(token[prefix.len() + i] == without_dash(suffix[i]));
        assert(token[prefix.len() + i] == without_dash(other[i]));
    }
    assert(suffix =~= other);
    suffixes_tell_runs_apart(process_id, nanos, other_process_id, other_nanos);
}

/// A handle token is the name of the program, the numeral of the process and that of
/// the clock, joined by underscores.
pub proof fn tokens_join_process_and_clock(process_id: u32, nanos: Option<u128>)
    ensures
        token_text(process_id, nanos) == "computer_use_linux_"@ + crate::text::decimal(
            process_id as nat,
        ) + "_"@ + crate::text::decimal(
            (match nanos {
                Some(nanos) => nanos as nat,
                None => 0,
            }),
        ),
{
    let clock = clock_value(nanos) as nat;
    let suffix = suffix_text(process_id, nanos);
    let first = crate::text::decimal(process_id as nat);
    let last = crate::text::decimal(clock);
    reveal_strlit("_");
    lemma_decimal_digits(process_id as nat);
    lemma_decimal_digits(clock);
    let replaced = suffix.map_values(|c: char| without_dash(c));
    assert(replaced =~= first + "_"@ + last);
    assert(token_text(process_id, nanos) =~= "computer_use_linux_"@ + first + "_"@ + last);
}

} // verus!
