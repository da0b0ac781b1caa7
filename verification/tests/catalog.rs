use ifsrs::blocks::archetype_catalog;
use ifsrs::blocks::block_size;
use ifsrs::blocks::cat_map;
use ifsrs::blocks::BlockArchetype;
use ifsrs::blocks::BlockType;
use ifsrs::blocks::Category;
use ifsrs::blocks::EffectType;
use ifsrs::blocks::Point;
use ifsrs::blocks::Rgb;
use ifsrs::blocks::Scalar;
use ifsrs::blocks::SourceType;
use ifsrs::blocks::TargetType;
use ifsrs::blocks::TermType;
use ifsrs::blocks::Terminal;

const UNARY: [EffectType; 8] = [
    EffectType::NEG,
    EffectType::INV,
    EffectType::SIN,
    EffectType::COS,
    EffectType::TAN,
    EffectType::COT,
    EffectType::SEC,
    EffectType::CSC,
];

#[test]
fn scalars_are_bit_patterns() {
    assert_eq!(Scalar::zero().to_bits(), 0);
    assert_eq!(Scalar::from_bits(0x3f80_0000).to_bits(), 0x3f80_0000);
    assert_eq!(f32::from_bits(Scalar::from_bits(1.5f32.to_bits()).to_bits()), 1.5);
    assert_eq!(Scalar::from_bits(7), Scalar { bits: 7 });
    assert_eq!(Point::origin(), Point { x: Scalar { bits: 0 }, y: Scalar { bits: 0 } });
}

#[test]
fn new_terminal_sits_at_the_origin() {
    let t = Terminal::new("x".to_string(), TermType::IN, 9, Some(Scalar::from_bits(3)));
    assert_eq!(t.pos, Point::origin());
    assert_eq!(t.name, "x");
    assert_eq!(t.io, TermType::IN);
    assert_eq!(t.parent, 9);
    assert_eq!(t.val, Some(Scalar::from_bits(3)));
}

#[test]
fn effect_arities() {
    for k in [EffectType::ADD, EffectType::SUB, EffectType::MUL, EffectType::DIV, EffectType::MOD] {
        assert_eq!((k.inputs(), k.outputs()), (2, 1));
    }
    for k in UNARY {
        assert_eq!((k.inputs(), k.outputs()), (1, 1));
    }
    assert_eq!((EffectType::P2C.inputs(), EffectType::P2C.outputs()), (2, 2));
    assert_eq!((EffectType::C2P.inputs(), EffectType::C2P.outputs()), (2, 2));
    assert_eq!((EffectType::S2C.inputs(), EffectType::S2C.outputs()), (3, 3));
    assert_eq!((EffectType::C2S.inputs(), EffectType::C2S.outputs()), (3, 3));
    assert_eq!(EffectType::all().len(), 17);
    assert_eq!(EffectType::all()[0], EffectType::ADD);
    assert_eq!(EffectType::all()[16], EffectType::C2S);
}

#[test]
fn archetypes_match_their_arities() {
    for k in EffectType::all() {
        let a = BlockArchetype::from_type(BlockType::EFFECT(k));
        assert_eq!(a.block_type, BlockType::EFFECT(k));
        assert_eq!(a.inputs.len(), k.inputs());
        assert_eq!(a.outputs.len(), k.outputs());
    }
}

#[test]
fn archetype_names_and_labels() {
    let a = BlockArchetype::from_type(BlockType::EFFECT(EffectType::ADD));
    assert_eq!((a.name.as_str(), a.category), ("x+y", Category::Arithmetic));
    assert_eq!(a.inputs, vec!["x", "y"]);
    assert_eq!(a.outputs, vec![""]);
    let a = BlockArchetype::from_type(BlockType::EFFECT(EffectType::INV));
    assert_eq!((a.name.as_str(), a.category), ("1/x", Category::Arithmetic));
    assert_eq!(a.inputs, vec![""]);
    let a = BlockArchetype::from_type(BlockType::EFFECT(EffectType::CSC));
    assert_eq!((a.name.as_str(), a.category), ("csc(x)", Category::Trig));
    let a = BlockArchetype::from_type(BlockType::EFFECT(EffectType::P2C));
    assert_eq!((a.name.as_str(), a.category), ("poltocar", Category::Coordinates));
    assert_eq!(a.inputs, vec!["r", "θ"]);
    assert_eq!(a.outputs, vec!["x", "y"]);
    let a = BlockArchetype::from_type(BlockType::EFFECT(EffectType::C2P));
    assert_eq!(a.name, "cartopol");
    assert_eq!(a.inputs, vec!["x", "y"]);
    assert_eq!(a.outputs, vec!["r", "θ"]);
    let a = BlockArchetype::from_type(BlockType::EFFECT(EffectType::C2S));
    assert_eq!(a.name, "cartospher");
    assert_eq!(a.inputs, vec!["x", "y", "z"]);
    assert_eq!(a.outputs, vec!["ρ", "θ", "φ"]);
    let a = BlockArchetype::from_type(BlockType::SOURCE(SourceType::AUDIO));
    assert_eq!((a.name.as_str(), a.category), ("Audio", Category::Sources));
    assert!(a.inputs.is_empty());
    assert_eq!(a.outputs, vec!["RMS"]);
    let a = BlockArchetype::from_type(BlockType::SOURCE(SourceType::CONSTANT));
    assert_eq!(a.name, "Constant");
    assert_eq!(a.outputs, vec!["0"]);
    let a = BlockArchetype::from_type(BlockType::TARGET(TargetType::DISPLAY));
    assert_eq!((a.name.as_str(), a.category), ("Display", Category::Targets));
    assert_eq!(a.inputs, vec![""]);
    assert!(a.outputs.is_empty());
    let a = BlockArchetype::from_type(BlockType::TARGET(TargetType::ITERATOR(3)));
    assert_eq!(a.name, "Iterator");
    assert_eq!(a.block_type, BlockType::TARGET(TargetType::ITERATOR(3)));
    assert_eq!(a.inputs, vec![""]);
}

#[test]
fn catalog_runs_by_category() {
    let catalog = archetype_catalog();
    assert_eq!(catalog.len(), 20);
    assert_eq!(catalog[0].block_type, BlockType::SOURCE(SourceType::AUDIO));
    assert_eq!(catalog[1].block_type, BlockType::SOURCE(SourceType::CONSTANT));
    for (i, k) in EffectType::all().into_iter().enumerate() {
        assert_eq!(catalog[i + 2].block_type, BlockType::EFFECT(k));
    }
    assert_eq!(catalog[19].block_type, BlockType::TARGET(TargetType::DISPLAY));
    let mut categories: Vec<Category> = catalog.iter().map(|a| a.category).collect();
    categories.dedup();
    assert_eq!(
        categories,
        vec![Category::Sources, Category::Arithmetic, Category::Trig, Category::Coordinates, Category::Targets]
    );
}

#[test]
fn category_colours() {
    assert_eq!(cat_map(Category::Sources), Rgb { r: 200, g: 190, b: 215 });
    assert_eq!(cat_map(Category::Arithmetic), Rgb { r: 225, g: 170, b: 170 });
    assert_eq!(cat_map(Category::Trig), Rgb { r: 170, g: 200, b: 150 });
    assert_eq!(cat_map(Category::Coordinates), Rgb { r: 170, g: 190, b: 225 });
    assert_eq!(cat_map(Category::Targets), Rgb { r: 220, g: 225, b: 180 });
}

#[test]
fn block_sizes() {
    let effect = BlockType::EFFECT(EffectType::ADD);
    let source = BlockType::SOURCE(SourceType::CONSTANT);
    let target = BlockType::TARGET(TargetType::DISPLAY);
    assert_eq!(block_size(effect, 3, 2, 1), Some((30, 60)));
    assert_eq!(block_size(effect, 10, 3, 3), Some((100, 80)));
    assert_eq!(block_size(effect, 0, 0, 0), Some((0, 20)));
    assert_eq!(block_size(source, 8, 0, 1), Some((80, 20)));
    assert_eq!(block_size(target, 7, 1, 0), Some((80, 20)));
    assert_eq!(block_size(target, 7, 5, 0), Some((80, 100)));
    assert_eq!(block_size(source, 0, 0, 0), Some((80, 0)));
    assert_eq!(block_size(effect, 429496729, 0, 0), Some((4294967290, 20)));
    assert_eq!(block_size(effect, 429496730, 0, 0), None);
    assert_eq!(block_size(effect, 0, 214748363, 0), Some((0, 4294967280)));
    assert_eq!(block_size(effect, 0, 0, 214748364), None);
    assert_eq!(block_size(source, 0, 214748364, 0), Some((80, 4294967280)));
    assert_eq!(block_size(source, 0, 214748365, 0), None);
    assert_eq!(BlockArchetype::from_type(effect).size(), Some((30, 60)));
    assert_eq!(BlockArchetype::from_type(BlockType::EFFECT(EffectType::S2C)).size(), Some((100, 80)));
    assert_eq!(BlockArchetype::from_type(source).size(), Some((80, 20)));
    assert_eq!(BlockArchetype::from_type(target).size(), Some((80, 20)));
}
