use vstd::prelude::*;

use crate::protocol::row_col::{Col, ColValue, Row};

verus! {

/// A row of `texts` (without its id): title and body.
pub fn new_row_text(title: String, body: String) -> (r: Row)
    ensures
        r@ == seq![ColValue::Text(title@), ColValue::Text(body@)],
{
    let r = Row { cols: vec![Col::Text(title), Col::Text(body)] };
    assert(r@ =~= seq![ColValue::Text(title@), ColValue::Text(body@)]);
    r
}

/// A row of `keyword_lookup` (without its id): the text's id and the keyword.
pub fn new_row_keyword_lookup(text_id: i64, keyword: String) -> (r: Row)
    ensures
        r@ == seq![ColValue::Integer(text_id), ColValue::Text(keyword@)],
{
    let r = Row { cols: vec![Col::Integer(text_id), Col::Text(keyword)] };
    assert(r@ =~= seq![ColValue::Integer(text_id), ColValue::Text(keyword@)]);
    r
}

} // verus!
