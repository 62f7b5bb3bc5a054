use vcomp::effect::{Effect, Update};
use vcomp::props::{bytes_equal, AnyProps};
use vcomp::scope::{ScopeBuilder, ScopeEnv, ScopeSender};
use vcomp::target::RenderTarget;
use vcomp::virtual_dom::vcomp::{BlindSender, Callback, Generator, Transformer, VComp};

#[test]
fn packing_then_unpacking_gives_the_value_back() {
    let capsule = AnyProps::pack(3, vec![1, 2, 3]);
    assert_eq!(capsule.tag(), 3);
    assert!(capsule.is_for(3));
    assert_eq!(capsule.unpack(3), vec![1, 2, 3]);
}

#[test]
fn capsule_is_not_for_another_component() {
    let capsule = AnyProps::pack(3, vec![1, 2, 3]);
    assert!(!capsule.is_for(4));
    let empty = AnyProps::pack(0, Vec::new());
    assert!(empty.is_for(0));
    assert_eq!(empty.unpack(0), Vec::<u8>::new());
}

#[test]
fn bytes_are_compared_by_content() {
    assert!(bytes_equal(&vec![], &vec![]));
    assert!(bytes_equal(&vec![1, 2], &vec![1, 2]));
    assert!(!bytes_equal(&vec![1, 2], &vec![1, 3]));
    assert!(!bytes_equal(&vec![1, 2], &vec![1]));
    assert!(!bytes_equal(&vec![], &vec![0]));
}

#[test]
fn first_forward_always_sends() {
    let mut channel = BlindSender::new(1, ScopeSender { scope: 10 });
    let sent = channel.forward(AnyProps::pack(1, Vec::new()));
    assert_eq!(sent, Some(Effect::Send { scope: 10, update: Update::Properties(vec![]) }));
}

#[test]
fn forward_sends_changes_only() {
    let mut channel = BlindSender::new(1, ScopeSender { scope: 10 });
    let first = channel.forward(AnyProps::pack(1, vec![5]));
    assert_eq!(first, Some(Effect::Send { scope: 10, update: Update::Properties(vec![5]) }));
    let second = channel.forward(AnyProps::pack(1, vec![5]));
    assert_eq!(second, None);
    let third = channel.forward(AnyProps::pack(1, vec![6]));
    assert_eq!(third, Some(Effect::Send { scope: 10, update: Update::Properties(vec![6]) }));
    let back = channel.forward(AnyProps::pack(1, vec![5]));
    assert_eq!(back, Some(Effect::Send { scope: 10, update: Update::Properties(vec![5]) }));
}

#[test]
fn generator_runs_once() {
    let mut parent = RenderTarget::new();
    let mut generator = Generator::new(1, ScopeBuilder::new(1, 10));
    assert!(generator.is_pending());
    let (root, handle) = generator.generate(7, &mut parent, None, AnyProps::pack(1, vec![2]));
    assert_eq!(root, 0);
    assert_eq!(handle.scope(), 10);
    assert!(!generator.is_pending());
    assert_eq!(parent.children(), vec![0]);
}

#[test]
fn builder_hands_out_handle_and_sender_of_its_scope() {
    let builder = ScopeBuilder::new(1, 10);
    assert_eq!(builder.handle().scope(), 10);
    assert_eq!(builder.sender(), ScopeSender { scope: 10 });
    assert_eq!(builder.handle().destroy(), Effect::Destroy { scope: 10 });
    let mut parent = RenderTarget::new();
    let root = builder.build(3).mount_in_place(&mut parent, None, vec![1]);
    assert_eq!(root, 0);
    assert_eq!(
        parent.take_journal(),
        vec![Effect::Mount { scope: 10, context: 3, root: 0, obsolete: None, props: vec![1] }]
    );
}

#[test]
fn environment_gives_context_and_sender() {
    let env = ScopeEnv::new(7, ScopeSender { scope: 100 });
    assert_eq!(env.context(), 7);
    assert_eq!(env.sender(), ScopeSender { scope: 100 });
    assert_eq!(
        env.sender().send(Update::Message(vec![1])),
        Effect::Send { scope: 100, update: Update::Message(vec![1]) }
    );
}

#[test]
fn transform_passes_a_value() {
    let (_, mut comp) = VComp::lazy(1, 10);
    let value: u32 = comp.transform(5u32);
    assert_eq!(value, 5);
    let list: Vec<u8> = comp.transform(vec![1u8, 2]);
    assert_eq!(list, vec![1, 2]);
}

#[test]
fn transform_clones_a_reference() {
    let (_, mut comp) = VComp::lazy(1, 10);
    let source = vec![1u8, 2, 3];
    let copy: Vec<u8> = comp.transform(&source);
    assert_eq!(copy, source);
}

#[test]
fn transform_copies_borrowed_text() {
    let (_, mut comp) = VComp::lazy(1, 10);
    let owned: String = comp.transform("label");
    assert_eq!(owned, String::from("label"));
    let empty: String = comp.transform("");
    assert_eq!(empty, String::new());
}

#[test]
fn callback_sends_through_the_activated_slot() {
    let (_, mut comp) = VComp::lazy(1, 10);
    let double: Option<Callback<u8, _>> = comp.transform(|input: u8| vec![input, input]);
    let single: Option<Callback<u8, _>> = comp.transform(|input: u8| vec![input]);
    let double = double.unwrap();
    let single = single.unwrap();
    assert_eq!(double.slot, 0);
    assert_eq!(single.slot, 1);
    assert_eq!(comp.activator(0), None);
    assert_eq!(comp.activator(1), None);
    assert_eq!(comp.activator(2), None);

    comp.set_props(vec![]);
    comp.activate_props(ScopeSender { scope: 100 });
    assert_eq!(comp.activator(0), Some(ScopeSender { scope: 100 }));
    assert_eq!(comp.activator(1), Some(ScopeSender { scope: 100 }));
    assert_eq!(comp.activator(2), None);
    assert_eq!(
        double.emit(&comp, 4),
        Effect::Send { scope: 100, update: Update::Message(vec![4, 4]) }
    );
    assert_eq!(
        single.emit(&comp, 9),
        Effect::Send { scope: 100, update: Update::Message(vec![9]) }
    );
}

#[test]
fn callbacks_are_activated_by_apply() {
    let mut parent = RenderTarget::new();
    let (_, mut comp) = VComp::lazy(1, 10);
    let callback: Option<Callback<u8, _>> = comp.transform(|input: u8| vec![input]);
    let callback = callback.unwrap();
    comp.set_props(vec![1]);
    comp.apply(&mut parent, None, None, ScopeEnv::new(7, ScopeSender { scope: 55 }));
    assert_eq!(comp.activator(callback.slot), Some(ScopeSender { scope: 55 }));
    assert_eq!(
        callback.emit(&comp, 3),
        Effect::Send { scope: 55, update: Update::Message(vec![3]) }
    );
}
