use pact_builder::handles::{HandleRegistry, InteractionHandle, MessageHandle, PactHandle};
use pact_builder::interactions::{
    pactffi_free_pact_handle, pactffi_new_async_message, pactffi_new_interaction,
};

#[test]
fn pact_handles() {
    let mut registry = HandleRegistry::new();
    let pact_handle = PactHandle::new(&mut registry, "TestC", "TestP");
    let i_handle = pactffi_new_interaction(&mut registry, pact_handle, Some("first interaction"));
    let i_handle2 =
        pactffi_new_async_message(&mut registry, pact_handle, Some("second interaction"));

    assert_eq!(i_handle.interaction_ref, ((pact_handle.pact_ref as u32) << 16) + 1);
    assert_eq!(i_handle2.interaction_ref, ((pact_handle.pact_ref as u32) << 16) + 2);

    let seen = pact_handle.with_pact(&mut registry, |pact_ref, inner| {
        let seen = (
            pact_ref,
            inner.pact.consumer.name.clone(),
            inner.pact.provider.name.clone(),
            inner.pact.interactions.len(),
        );
        (inner, seen)
    });
    assert_eq!(
        seen,
        Some((pact_handle.pact_ref - 1, "TestC".to_string(), "TestP".to_string(), 2))
    );

    let first = i_handle.with_interaction(&mut registry, |i_ref, _, inner| {
        let seen = (i_ref, inner.description().clone(), inner.type_of());
        (inner, seen)
    });
    assert_eq!(
        first,
        Some((0, "first interaction".to_string(), "V4 Synchronous/HTTP".to_string()))
    );

    let second = i_handle2.with_message(&mut registry, |i_ref, _, inner| {
        let seen = (i_ref, inner.description().clone(), inner.type_of());
        (inner, seen)
    });
    assert_eq!(
        second,
        Some((1, "second interaction".to_string(), "V4 Asynchronous/Messages".to_string()))
    );

    assert_eq!(pactffi_free_pact_handle(&mut registry, pact_handle), 0);
    assert_eq!(pactffi_free_pact_handle(&mut registry, pact_handle), 1);
}

#[test]
fn handle_packs_document_and_position() {
    let handle = InteractionHandle::new(PactHandle { pact_ref: 0x1234 }, 0x00ab);
    assert_eq!(handle.interaction_ref, 0x1234_00ab);
    assert_eq!(handle.parts(), (0x1234, 0x00ab));
    let largest = InteractionHandle::new(PactHandle { pact_ref: 0xffff }, 0xffff);
    assert_eq!(largest.interaction_ref, 0xffff_ffff);
    assert_eq!(largest.parts(), (0xffff, 0xffff));
}

#[test]
fn message_handle_position_runs_over() {
    let pact = PactHandle { pact_ref: 2 };
    assert_eq!(MessageHandle::new_v4(pact, 3).interaction_ref, 0x0002_0003);
    assert_eq!(MessageHandle::new_v4(pact, 0x1_0001).interaction_ref, 0x0003_0001);
    let last = PactHandle { pact_ref: 0xffff };
    assert_eq!(MessageHandle::new_v4(last, 0x1_0000).interaction_ref, 0);
}

#[test]
fn identifiers_follow_the_number_of_documents() {
    let mut registry = HandleRegistry::new();
    let first = PactHandle::new(&mut registry, "a", "b");
    let second = PactHandle::new(&mut registry, "c", "d");
    assert_eq!((first.pact_ref, second.pact_ref), (1, 2));
    assert_eq!(pactffi_free_pact_handle(&mut registry, first), 0);
    let third = PactHandle::new(&mut registry, "e", "f");
    assert_eq!(third.pact_ref, 2);
    assert_eq!(registry.len(), 1);
    assert_eq!(registry.get(2).unwrap().pact.consumer.name, "e");
}

#[test]
fn position_wraps_in_sixteen_bits() {
    let mut registry = HandleRegistry::new();
    let pact = PactHandle::new(&mut registry, "a", "b");
    let mut last = InteractionHandle::new(pact, 0);
    for _ in 0..65535 {
        last = pactffi_new_interaction(&mut registry, pact, Some("i"));
    }
    assert_eq!(last.parts(), (1, 65535));
    let over = pactffi_new_interaction(&mut registry, pact, Some("one too many"));
    assert_eq!(over.parts(), (1, 0));
    assert_eq!(registry.get(1).unwrap().pact.interactions.len(), 65536);
    let message = pactffi_new_async_message(&mut registry, pact, Some("m"));
    assert_eq!(message.interaction_ref, (1 << 16) + 65537);
    assert_eq!(message.parts(), (2, 1));
}

#[test]
fn identifier_wraps_in_sixteen_bits() {
    let mut registry = HandleRegistry::new();
    for expected in 1..=65535u32 {
        let handle = PactHandle::new(&mut registry, "a", "b");
        assert_eq!(handle.pact_ref as u32, expected);
    }
    let wrapped = PactHandle::new(&mut registry, "c", "d");
    assert_eq!(wrapped.pact_ref, 0);
    assert_eq!(registry.len(), 65536);
    let again = PactHandle::new(&mut registry, "e", "f");
    assert_eq!(again.pact_ref, 1);
    assert_eq!(registry.len(), 65536);
    assert_eq!(registry.get(1).unwrap().pact.consumer.name, "e");
    let seen = wrapped.with_pact(&mut registry, |before, document| (document, before));
    assert_eq!(seen, Some(65535));
}
