use rrte_engine::assets::{
    Asset, AssetError, AssetHandle, AssetLoader, AssetManager, AssetMetadata, HandleGenerator,
    LoaderRegistry, MeshAsset, UntypedHandle, Vertex,
};
use rrte_engine::math::{Color, Scalar, Vec2, Vec3};

struct Text {
    body: String,
}

impl Asset for Text {
    fn asset_type(&self) -> &'static str {
        "Text"
    }
}

struct TextLoader {
    extensions: Vec<&'static str>,
    tag: &'static str,
}

impl AssetLoader<Text> for TextLoader {
    fn load(&self, path: &str) -> Result<Text, AssetError> {
        if path.contains("broken") {
            Err(AssetError::Failed { reason: "broken".to_string() })
        } else {
            Ok(Text { body: format!("{}:{}", self.tag, path) })
        }
    }

    fn extensions(&self) -> Vec<String> {
        self.extensions.iter().map(|e| e.to_string()).collect()
    }
}

fn registry() -> LoaderRegistry<TextLoader> {
    let mut r = LoaderRegistry::new();
    r.register_loader(TextLoader { extensions: vec!["txt", "md"], tag: "plain" });
    r.register_loader(TextLoader { extensions: vec!["json"], tag: "data" });
    r
}

#[test]
fn handles() {
    let h: AssetHandle<Text> = AssetHandle::new(7);
    assert_eq!(h.id(), 7);
    let u = UntypedHandle::new(9);
    assert_eq!(u.id(), 9);
    assert_eq!(u.typed::<Text>().id(), 9);
    assert_eq!(UntypedHandle::from_typed(&h), UntypedHandle::new(7));
    assert_eq!(UntypedHandle::from_typed(&u.typed::<Text>()), u);
}

#[test]
fn generator_counts_from_one() {
    let mut g = HandleGenerator::new();
    let ids: Vec<u64> = (0..4).map(|_| g.generate::<Text>().id()).collect();
    assert_eq!(ids, vec![1, 2, 3, 4]);
    assert_eq!(HandleGenerator::default().generate::<Text>().id(), 1);
}

#[test]
fn loader_is_found_by_extension() {
    let r = registry();
    assert_eq!(r.loader_count(), 2);
    assert_eq!(r.load_asset("notes/readme.md").unwrap().body, "plain:notes/readme.md");
    assert_eq!(r.load_asset("a.txt").unwrap().body, "plain:a.txt");
    assert_eq!(r.load_asset("dir.d/scene.json").unwrap().body, "data:dir.d/scene.json");
    assert_eq!(r.load_asset("archive.tar.json").unwrap().body, "data:archive.tar.json");
}

#[test]
fn loading_fails_without_extension_or_loader() {
    let r = registry();
    for path in ["readme", "dir.d/readme", ".txt", "", "dir/"] {
        assert!(matches!(r.load_asset(path), Err(AssetError::NoExtension)), "{}", path);
    }
    match r.load_asset("picture.png") {
        Err(AssetError::NoLoader { extension }) => assert_eq!(extension, "png"),
        _ => panic!("a loader was found for png"),
    }
    match r.load_asset("a.TXT") {
        Err(AssetError::NoLoader { extension }) => assert_eq!(extension, "TXT"),
        _ => panic!("extensions are told apart by case"),
    }
    assert!(matches!(r.load_asset("broken.txt"), Err(AssetError::Failed { .. })));
}

#[test]
fn resolve_names_the_loader() {
    let r = registry();
    assert_eq!(r.resolve(Some("txt".to_string())).unwrap(), 0);
    assert_eq!(r.resolve(Some("md".to_string())).unwrap(), 0);
    assert_eq!(r.resolve(Some("json".to_string())).unwrap(), 1);
    assert!(matches!(r.resolve(None), Err(AssetError::NoExtension)));
    assert!(matches!(r.resolve(Some("png".to_string())), Err(AssetError::NoLoader { .. })));
}

#[test]
fn a_later_loader_takes_over_an_extension() {
    let mut r = registry();
    r.register(TextLoader { extensions: vec![], tag: "new" }, vec!["txt".to_string()]);
    assert_eq!(r.load_asset("a.txt").unwrap().body, "new:a.txt");
    assert_eq!(r.load_asset("a.md").unwrap().body, "plain:a.md");
    assert_eq!(r.loader_count(), 3);
}

#[test]
fn manager_hands_out_handles_in_order() {
    let mut m: AssetManager<Text, TextLoader> = AssetManager::new();
    m.register_loader(TextLoader { extensions: vec!["txt"], tag: "t" });
    let a = m.load("a.txt").unwrap();
    let b = m.load("b.txt").unwrap();
    assert_eq!((a.id(), b.id()), (0, 1));
    assert_eq!(m.get(a).unwrap().body, "t:a.txt");
    assert_eq!(m.get(b).unwrap().body, "t:b.txt");
    assert!(m.is_loaded(a) && m.is_loaded(b));
    assert!(!m.is_loaded(UntypedHandle::new(2)));
    assert!(m.get(UntypedHandle::new(2)).is_none());
    let mut ids: Vec<u64> = m.loaded_assets().iter().map(|h| h.id()).collect();
    ids.sort();
    assert_eq!(ids, vec![0, 1]);
}

#[test]
fn a_failed_load_changes_nothing() {
    let mut m: AssetManager<Text, TextLoader> = AssetManager::new();
    m.register_loader(TextLoader { extensions: vec!["txt"], tag: "t" });
    assert!(matches!(m.load("a.png"), Err(AssetError::NoLoader { .. })));
    assert!(matches!(m.load("a"), Err(AssetError::NoExtension)));
    assert!(matches!(m.load("broken.txt"), Err(AssetError::Failed { .. })));
    assert!(m.loaded_assets().is_empty());
    assert_eq!(m.load("a.txt").unwrap().id(), 0);
}

#[test]
fn unloading_lets_go_of_one_asset() {
    let mut m: AssetManager<Text, TextLoader> = AssetManager::new();
    m.register_loader(TextLoader { extensions: vec!["txt"], tag: "t" });
    let a = m.load("a.txt").unwrap();
    let b = m.load("b.txt").unwrap();
    m.unload(a);
    m.unload(a);
    assert!(!m.is_loaded(a));
    assert!(m.is_loaded(b));
    assert_eq!(m.loaded_assets(), vec![b]);
    assert_eq!(m.load("c.txt").unwrap().id(), 2);
    assert_eq!(m.store(Text { body: "made".to_string() }).id(), 3);
    assert_eq!(m.get(UntypedHandle::new(3)).unwrap().body, "made");
}

fn metadata() -> AssetMetadata {
    AssetMetadata {
        path: "mesh.obj".to_string(),
        asset_type: "Mesh".to_string(),
        size: 0,
        created: 0,
        modified: 0,
        dependencies: vec![],
    }
}

fn vertex(x: f32) -> Vertex {
    let z = Scalar::zero();
    Vertex {
        position: Vec3::new(Scalar::from_bits(x.to_bits()), z, z),
        normal: Vec3::new(z, z, Scalar::one()),
        uv: Vec2::zero(),
        color: Color::opaque_white(),
    }
}

#[test]
fn meshes() {
    let mut mesh = MeshAsset {
        vertices: vec![vertex(0.0), vertex(1.0), vertex(2.0), vertex(3.0)],
        indices: vec![0, 1, 2, 2, 1, 3],
        metadata: metadata(),
    };
    assert_eq!(mesh.asset_type(), "Mesh");
    assert!(mesh.is_well_indexed());
    assert_eq!(mesh.triangle_count(), 2);
    mesh.indices.push(0);
    assert!(!mesh.is_well_indexed());
    mesh.indices.truncate(6);
    mesh.indices[5] = 4;
    assert!(!mesh.is_well_indexed());
    mesh.indices.clear();
    assert!(mesh.is_well_indexed());
    assert_eq!(mesh.triangle_count(), 0);
}

#[test]
fn a_picture_becomes_a_png_file() {
    let mut picture = image::RgbaImage::new(2, 2);
    picture.put_pixel(0, 0, image::Rgba([255, 0, 0, 255]));
    picture.put_pixel(1, 1, image::Rgba([0, 0, 255, 128]));
    let asset = rrte_engine::assets::ImageAsset::new(
        std::sync::Arc::new(image::DynamicImage::ImageRgba8(picture.clone())),
        metadata(),
    );
    assert_eq!(asset.asset_type(), "Image");
    let bytes = asset.serialize().unwrap();
    assert_eq!(&bytes[0..8], &[0x89, b'P', b'N', b'G', 0x0d, 0x0a, 0x1a, 0x0a]);
    let back = image::load_from_memory(&bytes).unwrap().to_rgba8();
    assert_eq!(back, picture);
}

#[test]
fn a_picture_that_png_cannot_hold_fails_with_the_encoders_words() {
    let picture = image::Rgb32FImage::new(2, 2);
    let asset = rrte_engine::assets::ImageAsset::new(
        std::sync::Arc::new(image::DynamicImage::ImageRgb32F(picture)),
        metadata(),
    );
    match asset.serialize() {
        Err(AssetError::Failed { reason }) => assert!(!reason.is_empty()),
        _ => panic!("the picture was encoded"),
    }
}

#[test]
fn loading_by_a_given_extension() {
    let r = registry();
    assert_eq!(r.load_by_extension(Some("md".to_string()), "x").unwrap().body, "plain:x");
    assert_eq!(r.load_by_extension(Some("json".to_string()), "y.txt").unwrap().body, "data:y.txt");
    assert!(matches!(r.load_by_extension(None, "a.txt"), Err(AssetError::NoExtension)));
    match r.load_by_extension(Some("png".to_string()), "a.txt") {
        Err(AssetError::NoLoader { extension }) => assert_eq!(extension, "png"),
        _ => panic!("a loader was found for png"),
    }
    assert!(matches!(
        r.load_by_extension(Some("txt".to_string()), "broken"),
        Err(AssetError::Failed { .. })
    ));
}

#[test]
fn what_the_encoder_gives_is_what_serialising_gives() {
    assert_eq!(rrte_engine::assets::ImageAsset::encoded(Ok(vec![1, 2, 3])).unwrap(), vec![1, 2, 3]);
    match rrte_engine::assets::ImageAsset::encoded(Err("no".to_string())) {
        Err(AssetError::Failed { reason }) => assert_eq!(reason, "no"),
        _ => panic!("a failure was lost"),
    }
}
