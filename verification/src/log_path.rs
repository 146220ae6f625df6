use vstd::prelude::*;

verus! {

/// The lower-case character of the hexadecimal digit `n`.
pub open spec fn hex_digit(n: int) -> char
    recommends
        0 <= n < 16,
{
    "0123456789abcdef"@[n]
}

/// The `k`-th hexadecimal digit of `id`, counted from the most significant one.
pub open spec fn nibble(id: u128, k: int) -> int
    recommends
        0 <= k < 32,
{
    ((id >> ((4 * (31 - k)) as u128)) & 0xf) as int
}

/// The places of the four hyphens in the text of an identifier.
pub open spec fn is_hyphen_position(i: int) -> bool {
    i == 8 || i == 13 || i == 18 || i == 23
}

/// Which hexadecimal digit stands at place `i` of the text of an identifier,
/// for a place that holds no hyphen.
pub open spec fn digit_index(i: int) -> int {
    if i < 8 {
        i
    } else if i < 13 {
        i - 1
    } else if i < 18 {
        i - 2
    } else if i < 23 {
        i - 3
    } else {
        i - 4
    }
}

/// The canonical text of a 128-bit identifier: its 32 hexadecimal digits in
/// lower case, most significant first, in groups of 8, 4, 4, 4 and 12 digits
/// with a hyphen between two groups.
pub open spec fn identifier_text(id: u128) -> Seq<char> {
    Seq::new(
        36,
        |i: int|
            if is_hyphen_position(i) {
                '-'
            } else {
                hex_digit(nibble(id, digit_index(i)))
            },
    )
}

/// Whether `id` carries the marks of a randomly generated identifier: the
/// version, which is the digit in the bits 76 to 79, is 4, and the variant,
/// which is the two bits 62 and 63, is binary `10`.
pub open spec fn is_random_identifier(id: u128) -> bool {
    (id >> 76u128) & 0xf == 4 && (id >> 62u128) & 0x3 == 2
}

/// The path of the log file of a logger that was given none, for the
/// identifier `id`.
pub open spec fn default_path_text(id: u128) -> Seq<char> {
    "pink_log/"@ + identifier_text(id) + ".txt"@
}

/// Whether `c` is a decimal digit or one of the letters `a` to `f`.
pub open spec fn is_lower_hex(c: char) -> bool {
    ('0' <= c && c <= '9') || ('a' <= c && c <= 'f')
}

/// Draws a fresh random identifier with `uuid::Uuid::new_v4` and hands it out
/// as the 128-bit number that `Uuid::as_u128` gives for it.
///
/// Trusted: whatever number is drawn, `new_v4` sets the version to 4 and the
/// variant to binary `10` before it hands the identifier out. Nothing else is
/// claimed of the number. The call aborts where the operating system cannot
/// supply random bytes.
#[verifier::external_body]
pub(crate) fn generate_uuid() -> (id: u128)
    ensures
        is_random_identifier(id),
{
    uuid::Uuid::new_v4().as_u128()
}

/// Renders the identifier with the number `id` as text, by the `Display` of
/// `uuid::Uuid`.
///
/// Trusted: that `Display` writes the hyphenated lower-case form, which is
/// `identifier_text`.
#[verifier::external_body]
fn uuid_to_string(id: u128) -> (text: String)
    ensures
        text@ == identifier_text(id),
{
    uuid::Uuid::from_u128(id).to_string()
}

/// The path of the log file for the identifier `id`: the identifier's text in
/// the directory `pink_log`, with the extension `txt`.
pub fn default_log_path(id: u128) -> (path: String)
    ensures
        path@ == default_path_text(id),
{
    let text = uuid_to_string(id);
    String::from_str("pink_log/").concat(text.as_str()).concat(".txt")
}

/// Every hexadecimal digit is written as a decimal digit or a letter from `a`
/// to `f`, and two different digits are written differently.
pub proof fn lemma_hex_digit(m: int, n: int)
    requires
        0 <= m < 16,
        0 <= n < 16,
    ensures
        is_lower_hex(hex_digit(m)),
        hex_digit(m) != '-',
        hex_digit(m) == hex_digit(n) ==> m == n,
{
    reveal_strlit("0123456789abcdef");
}

/// Every digit of a 128-bit number lies between 0 and 15.
pub proof fn lemma_nibble_range(id: u128, k: int)
    requires
        0 <= k < 32,
    ensures
        0 <= nibble(id, k) < 16,
{
    let shift = (4 * (31 - k)) as u128;
    assert(((id >> shift) & 0xf) < 16) by (bit_vector);
}

/// The shape of an identifier's text: 36 characters, hyphens at the places 8,
/// 13, 18 and 23, and a lower-case hexadecimal digit everywhere else.
pub proof fn lemma_identifier_text_shape(id: u128)
    ensures
        identifier_text(id).len() == 36,
        forall|i: int|
            0 <= i < 36 && is_hyphen_position(i) ==> #[trigger] identifier_text(id)[i] == '-',
        forall|i: int|
            0 <= i < 36 && !is_hyphen_position(i) ==> is_lower_hex(
                #[trigger] identifier_text(id)[i],
            ),
{
    assert forall|i: int| 0 <= i < 36 && !is_hyphen_position(i) implies is_lower_hex(
        #[trigger] identifier_text(id)[i],
    ) by {
        let k = digit_index(i);
        lemma_nibble_range(id, k);
        lemma_hex_digit(nibble(id, k), 0);
    }
}

/// A random identifier shows its marks in its text: the digit at place 14 is
/// `4`, and the digit at place 19 is one of `8`, `9`, `a` and `b`.
pub proof fn lemma_random_identifier_marks(id: u128)
    requires
        is_random_identifier(id),
    ensures
        identifier_text(id)[14] == '4',
        identifier_text(id)[19] == '8' || identifier_text(id)[19] == '9' || identifier_text(
            id,
        )[19] == 'a' || identifier_text(id)[19] == 'b',
{
    reveal_strlit("0123456789abcdef");
    assert(8 <= (id >> 60u128) & 0xf <= 11) by (bit_vector)
        requires
            (id >> 62u128) & 0x3 == 2,
    ;
    assert(nibble(id, 12) == 4);
    assert(8 <= nibble(id, 16) <= 11);
}

/// Two numbers that agree in their first `k` digits agree in all the bits
/// that these digits hold.
proof fn lemma_leading_digits(a: u128, b: u128, k: int)
    requires
        1 <= k <= 32,
        forall|j: int| 0 <= j < k ==> nibble(a, j) == nibble(b, j),
    ensures
        a >> ((4 * (32 - k)) as u128) == b >> ((4 * (32 - k)) as u128),
    decreases k,
{
    let shift = (4 * (32 - k)) as u128;
    assert(nibble(a, k - 1) == nibble(b, k - 1));
    if k == 1 {
        assert(a >> shift == b >> shift) by (bit_vector)
            requires
                shift == 124,
                (a >> shift) & 0xf == (b >> shift) & 0xf,
        ;
    } else {
        lemma_leading_digits(a, b, k - 1);
        let above = (4 * (32 - (k - 1))) as u128;
        assert(a >> shift == b >> shift) by (bit_vector)
            requires
                shift <= 120,
                above == shift + 4,
                a >> above == b >> above,
                (a >> shift) & 0xf == (b >> shift) & 0xf,
        ;
    }
}

/// Two identifiers with the same text are the same identifier.
pub proof fn lemma_identifier_text_injective(a: u128, b: u128)
    requires
        identifier_text(a) == identifier_text(b),
    ensures
        a == b,
{
    assert forall|j: int| 0 <= j < 32 implies nibble(a, j) == nibble(b, j) by {
        let i = if j < 8 {
            j
        } else if j < 12 {
            j + 1
        } else if j < 16 {
            j + 2
        } else if j < 20 {
            j + 3
        } else {
            j + 4
        };
        assert(digit_index(i) == j && !is_hyphen_position(i));
        assert(identifier_text(a)[i] == hex_digit(nibble(a, j)));
        assert(identifier_text(b)[i] == hex_digit(nibble(b, j)));
        lemma_nibble_range(a, j);
        lemma_nibble_range(b, j);
        lemma_hex_digit(nibble(a, j), nibble(b, j));
    }
    lemma_leading_digits(a, b, 32);
    assert(a == b) by (bit_vector)
        requires
            a >> 0u128 == b >> 0u128,
    ;
}

/// The shape of a default path: the directory `pink_log`, the 36 characters
/// of the identifier's text, and the extension `txt`.
pub proof fn lemma_default_path_shape(id: u128)
    ensures
        default_path_text(id).len() == 49,
        default_path_text(id).subrange(0, 9) == "pink_log/"@,
        default_path_text(id).subrange(9, 45) == identifier_text(id),
        default_path_text(id).subrange(45, 49) == ".txt"@,
{
    reveal_strlit("pink_log/");
    reveal_strlit(".txt");
}

/// Two different identifiers never share a default path.
pub proof fn lemma_default_path_injective(a: u128, b: u128)
    requires
        default_path_text(a) == default_path_text(b),
    ensures
        a == b,
{
    lemma_default_path_shape(a);
    lemma_default_path_shape(b);
    lemma_identifier_text_injective(a, b);
}

/// The pattern of a default path: the directory `pink_log`, then the text of a
/// random identifier (36 characters, hyphens at the places 8, 13, 18 and 23,
/// lower-case hexadecimal digits elsewhere, the version digit `4` at place 14
/// and a variant digit from `8` to `b` at place 19), then the extension `txt`.
pub open spec fn matches_default_pattern(path: Seq<char>) -> bool {
    &&& path.len() == 49
    &&& path.subrange(0, 9) == "pink_log/"@
    &&& path.subrange(45, 49) == ".txt"@
    &&& forall|i: int|
        0 <= i < 36 ==> if is_hyphen_position(i) {
            #[trigger] path[9 + i] == '-'
        } else {
            is_lower_hex(path[9 + i])
        }
    &&& path[23] == '4'
    &&& (path[28] == '8' || path[28] == '9' || path[28] == 'a' || path[28] == 'b')
}

/// The default path of every random identifier matches the pattern.
pub proof fn lemma_default_path_matches_pattern(id: u128)
    requires
        is_random_identifier(id),
    ensures
        matches_default_pattern(default_path_text(id)),
{
    let path = default_path_text(id);
    lemma_default_path_shape(id);
    lemma_identifier_text_shape(id);
    lemma_random_identifier_marks(id);
    assert forall|i: int| 0 <= i < 36 implies if is_hyphen_position(i) {
        #[trigger] path[9 + i] == '-'
    } else {
        is_lower_hex(path[9 + i])
    } by {
        assert(path[9 + i] == path.subrange(9, 45)[i]);
        assert(path[9 + i] == identifier_text(id)[i]);
    }
    assert(path[23] == path.subrange(9, 45)[14]);
    assert(path[28] == path.subrange(9, 45)[19]);
}

} // verus!
