use vectorizer::{
    draw_layout, ColorU, DrawJob, DrawLayout, DualColors, DynVectorizer, PathPoint, RenderingMode,
    SceneType, ShapeType, VScene, VShape, Vectorizer,
};

fn shape() -> VShape {
    let c = ColorU::new(1, 2, 3, 4);
    VShape::from_iter(
        ShapeType::Fill,
        DualColors { light_mode: c, dark_mode: c },
        vec![PathPoint { x: 0, y: 0 }],
    )
}

#[test]
fn draw_layout_accepts_documented_counts_only() {
    for sn in 0..7usize {
        for ln in 0..7usize {
            let expected = if (1..=4).contains(&sn) && ln == 1 {
                Some(DrawLayout::Single)
            } else if (2..=4).contains(&sn) && ln == sn {
                Some(DrawLayout::MultiInstance)
            } else {
                None
            };
            assert_eq!(draw_layout(sn, ln), expected, "sn = {}, ln = {}", sn, ln);
        }
    }
}

#[test]
fn single_layout_draws_all_scenes_through_first_layer() {
    let v: Vectorizer<3, 1, ()> = Vectorizer::default();
    assert_eq!(
        v.draw_jobs(),
        vec![DrawJob { layer: 0, drawable: 0, first_scene: 0, scene_count: 3 }]
    );
    let one: Vectorizer<1, 1, ()> = Vectorizer::default();
    assert_eq!(
        one.draw_jobs(),
        vec![DrawJob { layer: 0, drawable: 0, first_scene: 0, scene_count: 1 }]
    );
}

#[test]
fn multi_instance_layout_gives_each_scene_its_layer() {
    let v: Vectorizer<3, 3, ()> = Vectorizer::default();
    assert_eq!(
        v.draw_jobs(),
        vec![
            DrawJob { layer: 0, drawable: 0, first_scene: 0, scene_count: 1 },
            DrawJob { layer: 1, drawable: 1, first_scene: 1, scene_count: 1 },
            DrawJob { layer: 2, drawable: 2, first_scene: 2, scene_count: 1 },
        ]
    );
}

#[test]
fn every_scene_is_drawn_exactly_once() {
    fn check<const SN: usize, const LN: usize>(v: &Vectorizer<SN, LN, ()>) {
        let jobs = v.draw_jobs();
        for i in 0..SN {
            let n = jobs
                .iter()
                .filter(|j| j.first_scene <= i && i < j.first_scene + j.scene_count)
                .count();
            assert_eq!(n, 1);
        }
        for j in &jobs {
            assert!(j.layer < LN && j.drawable < LN && j.first_scene + j.scene_count <= SN);
        }
    }
    check(&Vectorizer::<1, 1, ()>::default());
    check(&Vectorizer::<2, 1, ()>::default());
    check(&Vectorizer::<3, 1, ()>::default());
    check(&Vectorizer::<4, 1, ()>::default());
    check(&Vectorizer::<2, 2, ()>::default());
    check(&Vectorizer::<3, 3, ()>::default());
    check(&Vectorizer::<4, 4, ()>::default());
}

#[test]
fn instance_kind_by_layer_count() {
    assert!(Vectorizer::<3, 1, ()>::is_single_instance());
    assert!(!Vectorizer::<3, 1, ()>::is_multi_instance());
    assert!(!Vectorizer::<3, 3, ()>::is_single_instance());
    assert!(Vectorizer::<3, 3, ()>::is_multi_instance());
    assert!(Vectorizer::<2, 2, ()>::is_multi_instance());
    assert!(Vectorizer::<4, 4, ()>::is_multi_instance());
}

#[test]
fn default_vectorizer_is_fresh() {
    let v: Vectorizer<4, 4, u8> = Vectorizer::default();
    assert_eq!(v.rendering_mode(), RenderingMode::Compute);
    for s in v.scenes().iter() {
        assert!(s.shapes().is_empty());
        assert!(s.needs_redraw());
    }
    assert_eq!(*v.layer1(), 0u8);
    assert_eq!(*v.layer4(), 0u8);
}

#[test]
fn scene_getters_and_mutators() {
    let mut v: Vectorizer<2, 1, ()> = Vectorizer::default();
    v.scene2_mut().add_shape(shape());
    v.scene1_mut().set_scene_type(SceneType::Cold);
    assert_eq!(v.scene1().shapes().len(), 0);
    assert_eq!(v.scene2().shapes().len(), 1);
    assert_eq!(v.get_scene(1).unwrap().shapes().len(), 1);
    assert!(v.get_scene(2).is_none());
    v.scenes_mut()[0].add_shape(shape());
    assert_eq!(v.scenes()[0].shapes().len(), 1);
}

#[test]
fn single_scene_getters() {
    let mut v: Vectorizer<1, 1, ()> = Vectorizer::default();
    v.scene_mut().add_shape(shape());
    assert_eq!(v.scene().shapes().len(), 1);
    let r = v.as_vectorizer_ref();
    assert_eq!(r.scenes[0].shapes().len(), 1);
}

#[test]
fn layer_getters() {
    let mut v: Vectorizer<2, 2, u32> = Vectorizer::default();
    *v.layer2_mut() = 7;
    *v.head_layer_mut() += 1;
    assert_eq!(*v.layer1(), 1);
    assert_eq!(*v.layer2(), 7);
    assert_eq!(*v.head_layer(), 1);
    assert_eq!(v.get_layer(1), Some(&7));
    assert_eq!(v.get_layer(2), None);
    let m = v.as_vectorizer_mut();
    m.layers[0] = 9;
    m.scenes[1].add_shape(shape());
    assert_eq!(*v.layer1(), 9);
    assert_eq!(v.scene2().shapes().len(), 1);
}

#[test]
fn layer_single_getter() {
    let mut v: Vectorizer<3, 1, u32> = Vectorizer::default();
    *v.layer_mut() = 5;
    assert_eq!(*v.layer(), 5);
    assert_eq!(v.scene3().shapes().len(), 0);
}

#[test]
fn dyn_vectorizer_defaults_and_getters() {
    let mut v: DynVectorizer<3, ()> = DynVectorizer::default();
    assert_eq!(v.rendering_mode(), RenderingMode::Compute);
    v.scenes_mut()[2].add_shape(shape());
    assert_eq!(v.scene3().shapes().len(), 1);
    assert_eq!(v.scene1().shapes().len(), 0);
    assert!(v.get_scene(3).is_none());
    assert!(v.get_scene(0).unwrap().needs_redraw());
    let one: DynVectorizer<1, ()> = DynVectorizer::default();
    assert!(one.scene().shapes().is_empty());
    let four: DynVectorizer<4, ()> = DynVectorizer::default();
    assert_eq!(four.scenes().len(), 4);
}

#[test]
fn default_scene_is_hot() {
    let mut s = VScene::default();
    s.set_needs_redraw(false);
    assert!(s.needs_redraw());
}
