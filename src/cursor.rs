use vstd::prelude::*;

verus! {

/// Positions of the hyphens in the hyphenated text form of a UUID.
pub open spec fn is_hyphen_position(i: int) -> bool {
    i == 8 || i == 13 || i == 18 || i == 23
}

/// The hyphenated text form of the nil UUID: 36 characters, all `0` but the
/// four hyphens.
pub open spec fn is_nil_text(s: Seq<char>) -> bool {
    &&& s.len() == 36
    &&& forall|i: int|
        0 <= i < 36 ==> #[trigger] s[i] == (if is_hyphen_position(i) {
            '-'
        } else {
            '0'
        })
}

/// Relies on `uuid::Uuid::nil` (all 128 bits zero) and on the `Display` impl
/// of `uuid::Uuid`, which writes the lower-case hyphenated form.
#[verifier::external_body]
fn nil_cursor() -> (r: String)
    ensures
        is_nil_text(r@),
{
    uuid::Uuid::nil().to_string()
}

/// The token that a scan of a collection starts from. The vector store's
/// scroll call takes no empty token, so a first scan (no cursor yet) starts
/// from the nil identifier; a later one resumes from the cursor the store
/// returned.
pub fn scan_seed(cursor: &Option<String>) -> (r: String)
    ensures
        cursor.is_none() ==> is_nil_text(r@),
        cursor.is_some() ==> r@ == cursor.unwrap()@,
{
    match cursor {
        Some(c) => c.clone(),
        None => nil_cursor(),
    }
}

} // verus!
