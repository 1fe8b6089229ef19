//! The decisions the three request handlers make: which command to send
//! to the store for a product, and which HTTP response each store reply
//! earns.
//!
//! The surrounding process parses the request body into a [`Product`],
//! performs the one store round trip, and writes the [`Response`] out;
//! everything in between is decided here.

use vstd::prelude::*;

use crate::json::{dec_str, product_json, product_to_json, u64_to_dec};
use crate::product::{Product, ProductView};
use crate::store::{
    Command, CommandView, StoreContents, StoreReply, TransportError, reply_matches, store_after,
    store_reply,
};

verus! {

/// An HTTP response: the status code and the body text. A failure carries
/// an empty body.
pub struct Response {
    pub status: u16,
    pub body: String,
}

/// The command a create issues: store the JSON serialization of `p` under
/// the decimal string of its id.
pub open spec fn set_command_view(p: ProductView) -> CommandView {
    CommandView::Put { key: dec_str(p.id as nat), value: product_json(p) }
}

/// The command a delete issues: remove the key for `p`'s id.
pub open spec fn del_command_view(p: ProductView) -> CommandView {
    CommandView::Del { key: dec_str(p.id as nat) }
}

/// Whether a reply is the store's exact confirmation of a successful
/// write: the simple status `OK` and nothing else.
pub open spec fn is_set_ack(r: Result<StoreReply, TransportError>) -> bool {
    r matches Ok(StoreReply::Simple(s)) && s@ == "OK"@
}

/// Whether a reply reports exactly three keys removed — the only count
/// the delete handler accepts.
pub open spec fn is_del_ack(r: Result<StoreReply, TransportError>) -> bool {
    r matches Ok(StoreReply::Int(n)) && n == 3
}

/// The fetch handler: echoes the product back unchanged as its JSON
/// serialization, with no store round trip, so the response does not
/// depend on any store state.
pub fn fetch(p: &Product) -> (r: Response)
    ensures
        r.status == 200,
        r.body@ == product_json(p@),
{
    Response { status: 200, body: product_to_json(p) }
}

/// The command the create handler sends for `p`.
pub fn set_command(p: &Product) -> (c: Command)
    ensures
        c@ == set_command_view(p@),
{
    Command::Put { key: u64_to_dec(p.id), value: product_to_json(p) }
}

/// The command the delete handler sends for `p`.
pub fn del_command(p: &Product) -> (c: Command)
    ensures
        c@ == del_command_view(p@),
{
    Command::Del { key: u64_to_dec(p.id) }
}

/// The create handler's verdict on the store's reply: success exactly on
/// the confirmation string `OK`; any other reply, and any transport
/// failure, is a server error with an empty body.
pub fn create_response(reply: &Result<StoreReply, TransportError>) -> (r: Response)
    ensures
        r.status == 200 <==> is_set_ack(*reply),
        is_set_ack(*reply) ==> r.body@ == "successfully cached values"@,
        !is_set_ack(*reply) ==> r.status == 500 && r.body@ == Seq::<char>::empty(),
{
    let confirmed = match reply {
        Ok(StoreReply::Simple(s)) => {
            let ok_text: String = "OK".to_owned();
            *s == ok_text
        },
        _ => false,
    };
    if confirmed {
        Response { status: 200, body: "successfully cached values".to_owned() }
    } else {
        Response { status: 500, body: String::new() }
    }
}

/// The delete handler's verdict on the store's reply: success exactly on
/// a deleted-key count of three; any other count, any other reply shape,
/// and any transport failure, is a server error with an empty body.
pub fn delete_response(reply: &Result<StoreReply, TransportError>) -> (r: Response)
    ensures
        r.status == 200 <==> is_del_ack(*reply),
        is_del_ack(*reply) ==> r.body@ == "successfully deleted values"@,
        !is_del_ack(*reply) ==> r.status == 500 && r.body@ == Seq::<char>::empty(),
{
    let confirmed = match reply {
        Ok(StoreReply::Int(n)) => *n == 3,
        _ => false,
    };
    if confirmed {
        Response { status: 200, body: "successfully deleted values".to_owned() }
    } else {
        Response { status: 500, body: String::new() }
    }
}

/// After a conforming store applies the SET command built for `p`, it
/// holds the JSON serialization of `p` under the decimal string of
/// `p.id`, and its reply is the confirmation on which the create handler
/// reports success.
pub proof fn lemma_create_persists(st: StoreContents, p: ProductView, r: StoreReply)
    requires
        reply_matches(r, store_reply(st, set_command_view(p))),
    ensures
        store_after(st, set_command_view(p)).contains_key(dec_str(p.id as nat)),
        store_after(st, set_command_view(p))[dec_str(p.id as nat)] == product_json(p),
        is_set_ack(Ok(r)),
{
}

/// A single-key DEL on a conforming store removes at most one key, so the
/// reply count is 0 or 1 — never the 3 the delete handler demands. The
/// handler therefore reports failure even when the deletion succeeded.
pub proof fn lemma_delete_never_acknowledged(st: StoreContents, p: ProductView, r: StoreReply)
    requires
        reply_matches(r, store_reply(st, del_command_view(p))),
    ensures
        !is_del_ack(Ok(r)),
        store_after(st, del_command_view(p)) == st.remove(dec_str(p.id as nat)),
{
}

} // verus!
