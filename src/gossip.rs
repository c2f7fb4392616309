//! The calls into the publish/subscribe layer (libp2p's gossipsub) that the
//! node makes: subscribing to a topic and publishing a payload on one.
use vstd::prelude::*;
use libp2p::gossipsub::{
    AllowAllSubscriptionFilter, Behaviour, IdentTopic, IdentityTransform, MessageId, PublishError,
    SubscriptionError,
};

verus! {

#[verifier::external_type_specification]
#[verifier::external_body]
#[verifier::reject_recursive_types(D)]
#[verifier::reject_recursive_types(F)]
pub struct ExBehaviour<D, F>(Behaviour<D, F>);

#[verifier::external_type_specification]
#[verifier::external_body]
pub struct ExIdentityTransform(IdentityTransform);

#[verifier::external_type_specification]
#[verifier::external_body]
pub struct ExAllowAllSubscriptionFilter(AllowAllSubscriptionFilter);

#[verifier::external_type_specification]
#[verifier::external_body]
pub struct ExMessageId(MessageId);

#[verifier::external_type_specification]
#[verifier::external_body]
pub struct ExPublishError(PublishError);

#[verifier::external_type_specification]
#[verifier::external_body]
pub struct ExSubscriptionError(SubscriptionError);

/// Relies on gossipsub's `Behaviour::subscribe`, on the topic named `topic`:
/// `Ok(true)` for a new subscription, `Ok(false)` when already subscribed.
/// Its one error comes when the subscription filter refuses the topic, and
/// the filter of this `Behaviour` (`AllowAllSubscriptionFilter`) refuses none.
#[verifier::external_body]
pub(crate) fn subscribe(g: &mut Behaviour, topic: &String) -> (r: Result<bool, SubscriptionError>)
    ensures
        r is Ok,
{
    g.subscribe(&IdentTopic::new(topic.clone()))
}

/// Relies on gossipsub's `Behaviour::publish`, on the topic named `topic`:
/// signs and sends `data`, and fails when it was published before (same
/// message identifier), is too large, or finds no peer to send to.
#[verifier::external_body]
pub(crate) fn publish(g: &mut Behaviour, topic: &String, data: &[u8]) -> (r: Result<
    MessageId,
    PublishError,
>) {
    g.publish(IdentTopic::new(topic.clone()), data.to_vec())
}

} // verus!
