//! The ids that tie responses to requests.

use vstd::prelude::*;

verus! {

/// A hexadecimal digit in lower case.
pub open spec fn is_lower_hex(c: char) -> bool {
    '0' <= c <= '9' || 'a' <= c <= 'f'
}

/// The text of a random UUID: 32 hexadecimal digits in five groups with hyphens between, the
/// version digit 4, and a variant digit from 8 to b.
pub open spec fn is_random_uuid(text: Seq<char>) -> bool {
    &&& text.len() == 36
    &&& forall|i: int|
        0 <= i < 36 ==> if i == 8 || i == 13 || i == 18 || i == 23 {
            #[trigger] text[i] == '-'
        } else {
            is_lower_hex(text[i])
        }
    &&& text[14] == '4'
    &&& text[19] == '8' || text[19] == '9' || text[19] == 'a' || text[19] == 'b'
}

/// Calls `Uuid::new_v4` and `to_string` of the uuid crate. The id is random, so all that is
/// claimed of it is its form. Where the operating system gives no random bytes, the call panics.
#[verifier::external_body]
pub(crate) fn new_correlation_id() -> (id: String)
    ensures
        is_random_uuid(id@),
{
    uuid::Uuid::new_v4().to_string()
}

/// The text of a random UUID has hyphens at four places and hexadecimal digits elsewhere, and
/// says its version and variant.
pub proof fn law_form_of_a_random_uuid(text: Seq<char>)
    requires
        is_random_uuid(text),
    ensures
        text.len() == 36,
        text[8] == '-' && text[13] == '-' && text[18] == '-' && text[23] == '-',
        forall|i: int|
            0 <= i < 36 && i != 8 && i != 13 && i != 18 && i != 23 ==> '0' <= #[trigger] text[i]
                <= '9' || 'a' <= text[i] <= 'f',
        text[14] == '4',
        text[19] == '8' || text[19] == '9' || text[19] == 'a' || text[19] == 'b',
{
}

} // verus!
