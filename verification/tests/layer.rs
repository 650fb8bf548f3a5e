use vectorizer::VLayer;

#[test]
fn layer_makes_its_context_once_and_keeps_it() {
    let mut layer: VLayer<u32> = VLayer::default();
    assert!(!layer.has_context());
    let mut made = 0;
    {
        let c = layer.prepare(|| {
            made += 1;
            10
        });
        *c += 1;
    }
    assert!(layer.has_context());
    let c = layer.prepare(|| {
        made += 1;
        99
    });
    assert_eq!(*c, 11);
    assert_eq!(made, 1);
}
