use skybox::image::ImageHandle;
use skybox::material::CubemapMaterial;
use skybox::scene::BackdropScene;

fn showing(id: u64) -> Option<CubemapMaterial> {
    Some(CubemapMaterial { base_color_texture: Some(ImageHandle { id }) })
}

#[test]
fn first_attachment_creates_one_backdrop() {
    let mut scene = BackdropScene { materials: Vec::new() };
    assert_eq!(scene.count(), 0);
    assert!(scene.attach(ImageHandle { id: 1 }));
    assert_eq!(scene.count(), 1);
    assert_eq!(scene.materials, vec![showing(1)]);
}

#[test]
fn later_attachment_reuses_the_backdrop() {
    let mut scene = BackdropScene { materials: Vec::new() };
    assert!(scene.attach(ImageHandle { id: 1 }));
    assert!(!scene.attach(ImageHandle { id: 2 }));
    assert_eq!(scene.count(), 1);
    assert_eq!(scene.materials, vec![showing(2)]);
    assert!(!scene.attach(ImageHandle { id: 3 }));
    assert_eq!(scene.count(), 1);
    assert_eq!(scene.materials, vec![showing(3)]);
}

#[test]
fn material_without_texture_is_pointed_at_the_texture() {
    let mut scene =
        BackdropScene { materials: vec![Some(CubemapMaterial { base_color_texture: None })] };
    assert!(!scene.attach(ImageHandle { id: 4 }));
    assert_eq!(scene.materials, vec![showing(4)]);
}

#[test]
fn unresolved_references_are_no_backdrops() {
    let mut scene = BackdropScene { materials: vec![None, None] };
    assert_eq!(scene.count(), 0);
    assert!(scene.attach(ImageHandle { id: 9 }));
    assert_eq!(scene.count(), 1);
    assert_eq!(scene.materials, vec![None, None, showing(9)]);
}

#[test]
fn every_resolved_material_is_updated() {
    let mut scene = BackdropScene { materials: vec![showing(1), None, showing(2)] };
    assert_eq!(scene.count(), 2);
    assert!(!scene.attach(ImageHandle { id: 5 }));
    assert_eq!(scene.count(), 2);
    assert_eq!(scene.materials, vec![showing(5), None, showing(5)]);
}
