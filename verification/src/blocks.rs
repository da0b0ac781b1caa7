//! The vocabulary of the automation graph: scalars, terminals, blocks, and
//! the catalog of block archetypes with their fixed arities and labels.

use vstd::prelude::*;
use vstd::string::StringSliceAdditionalSpecFns;

verus! {

/// Handle of a terminal: the index of its node in the editor's graph.
pub type TerminalId = u32;

/// Handle of a block: the key under which the editor stores it.
pub type BlockId = u64;

/// A scalar value carried through the automation graph, held as the bit
/// pattern of a 32-bit IEEE-754 number. The library stores and forwards these
/// values and never computes on them.
#[derive(Clone, Copy, Debug, PartialEq, Eq, Structural)]
pub struct Scalar {
    pub bits: u32,
}

impl Scalar {
    /// Positive zero, the value a constant source starts with.
    pub fn zero() -> (s: Scalar)
        ensures
            s == (Scalar { bits: 0 }),
    {
        Scalar { bits: 0 }
    }

    /// The scalar with the given bit pattern.
    pub fn from_bits(bits: u32) -> (s: Scalar)
        ensures
            s == (Scalar { bits }),
    {
        Scalar { bits }
    }

    /// The bit pattern of the scalar.
    pub fn to_bits(self) -> (bits: u32)
        ensures
            bits == self.bits,
    {
        self.bits
    }
}

/// A screen position, each coordinate held like a `Scalar`.
#[derive(Clone, Copy, Debug, PartialEq, Eq, Structural)]
pub struct Point {
    pub x: Scalar,
    pub y: Scalar,
}

impl Point {
    /// The origin.
    pub open spec fn origin_spec() -> Point {
        Point { x: Scalar { bits: 0 }, y: Scalar { bits: 0 } }
    }

    /// The origin.
    #[verifier::when_used_as_spec(origin_spec)]
    pub fn origin() -> (p: Point)
        ensures
            p == Point::origin_spec(),
    {
        Point { x: Scalar { bits: 0 }, y: Scalar { bits: 0 } }
    }
}

/// The direction of a terminal.
#[derive(Clone, Copy, Debug, PartialEq, Eq, Structural)]
pub enum TermType {
    IN,
    OUT,
}

/// The kinds of source block.
#[derive(Clone, Copy, Debug, PartialEq, Eq, Structural)]
pub enum SourceType {
    AUDIO,
    CONSTANT,
}

/// The kinds of effect block.
#[derive(Clone, Copy, Debug, PartialEq, Eq, Structural)]
pub enum EffectType {
    ADD,
    SUB,
    MUL,
    DIV,
    MOD,
    NEG,
    INV,
    SIN,
    COS,
    TAN,
    COT,
    SEC,
    CSC,
    P2C,
    C2P,
    S2C,
    C2S,
}

/// The kinds of target block. An iterator target carries the identity of the
/// iterator whose parameters it feeds.
#[derive(Clone, Copy, Debug, PartialEq, Eq, Structural)]
pub enum TargetType {
    ITERATOR(i32),
    DISPLAY,
}

/// The kind of a block.
#[derive(Clone, Copy, Debug, PartialEq, Eq, Structural)]
pub enum BlockType {
    SOURCE(SourceType),
    EFFECT(EffectType),
    TARGET(TargetType),
}

/// The group under which an archetype is offered.
#[derive(Clone, Copy, Debug, PartialEq, Eq, Structural)]
pub enum Category {
    Sources,
    Arithmetic,
    Trig,
    Coordinates,
    Targets,
}

/// A colour as red, green and blue.
#[derive(Clone, Copy, Debug, PartialEq, Eq, Structural)]
pub struct Rgb {
    pub r: u8,
    pub g: u8,
    pub b: u8,
}

/// The number of inputs an effect takes.
pub open spec fn input_arity(k: EffectType) -> nat {
    match k {
        EffectType::ADD | EffectType::SUB | EffectType::MUL | EffectType::DIV | EffectType::MOD => 2,
        EffectType::NEG | EffectType::INV => 1,
        EffectType::SIN | EffectType::COS | EffectType::TAN => 1,
        EffectType::COT | EffectType::SEC | EffectType::CSC => 1,
        EffectType::P2C | EffectType::C2P => 2,
        EffectType::S2C | EffectType::C2S => 3,
    }
}

/// The number of outputs an effect gives.
pub open spec fn output_arity(k: EffectType) -> nat {
    match k {
        EffectType::P2C | EffectType::C2P => 2,
        EffectType::S2C | EffectType::C2S => 3,
        _ => 1,
    }
}

/// Whether a block of the given kind may have the given numbers of inputs and
/// outputs. Sources have one output and no input, effects have their fixed
/// arities, and targets have no output.
pub open spec fn shape_fits(t: BlockType, inputs: nat, outputs: nat) -> bool {
    match t {
        BlockType::SOURCE(_) => inputs == 0 && outputs == 1,
        BlockType::EFFECT(k) => inputs == input_arity(k) && outputs == output_arity(k),
        BlockType::TARGET(TargetType::DISPLAY) => inputs == 1 && outputs == 0,
        BlockType::TARGET(TargetType::ITERATOR(_)) => outputs == 0,
    }
}

impl EffectType {
    /// The number of inputs the effect takes.
    pub fn inputs(self) -> (n: usize)
        ensures
            n == input_arity(self),
    {
        match self {
            EffectType::ADD | EffectType::SUB | EffectType::MUL | EffectType::DIV | EffectType::MOD => 2,
            EffectType::NEG | EffectType::INV => 1,
            EffectType::SIN | EffectType::COS | EffectType::TAN => 1,
            EffectType::COT | EffectType::SEC | EffectType::CSC => 1,
            EffectType::P2C | EffectType::C2P => 2,
            EffectType::S2C | EffectType::C2S => 3,
        }
    }

    /// The number of outputs the effect gives.
    pub fn outputs(self) -> (n: usize)
        ensures
            n == output_arity(self),
    {
        match self {
            EffectType::P2C | EffectType::C2P => 2,
            EffectType::S2C | EffectType::C2S => 3,
            _ => 1,
        }
    }

    /// Every effect kind, in catalog order.
    pub fn all() -> (kinds: Vec<EffectType>)
        ensures
            kinds@ == effect_kinds(),
    {
        let kinds = vec![
            EffectType::ADD,
            EffectType::SUB,
            EffectType::MUL,
            EffectType::DIV,
            EffectType::MOD,
            EffectType::NEG,
            EffectType::INV,
            EffectType::SIN,
            EffectType::COS,
            EffectType::TAN,
            EffectType::COT,
            EffectType::SEC,
            EffectType::CSC,
            EffectType::P2C,
            EffectType::C2P,
            EffectType::S2C,
            EffectType::C2S,
        ];
        assert(kinds@ =~= effect_kinds());
        kinds
    }
}

/// The effect kinds in catalog order.
pub open spec fn effect_kinds() -> Seq<EffectType> {
    seq![
        EffectType::ADD,
        EffectType::SUB,
        EffectType::MUL,
        EffectType::DIV,
        EffectType::MOD,
        EffectType::NEG,
        EffectType::INV,
        EffectType::SIN,
        EffectType::COS,
        EffectType::TAN,
        EffectType::COT,
        EffectType::SEC,
        EffectType::CSC,
        EffectType::P2C,
        EffectType::C2P,
        EffectType::S2C,
        EffectType::C2S,
    ]
}

/// The label colour of each category.
pub open spec fn category_color(c: Category) -> Rgb {
    match c {
        Category::Sources => Rgb { r: 200, g: 190, b: 215 },
        Category::Arithmetic => Rgb { r: 225, g: 170, b: 170 },
        Category::Trig => Rgb { r: 170, g: 200, b: 150 },
        Category::Coordinates => Rgb { r: 170, g: 190, b: 225 },
        Category::Targets => Rgb { r: 220, g: 225, b: 180 },
    }
}

/// The label colour of a category.
pub fn cat_map(c: Category) -> (color: Rgb)
    ensures
        color == category_color(c),
{
    match c {
        Category::Sources => Rgb { r: 200, g: 190, b: 215 },
        Category::Arithmetic => Rgb { r: 225, g: 170, b: 170 },
        Category::Trig => Rgb { r: 170, g: 200, b: 150 },
        Category::Coordinates => Rgb { r: 170, g: 190, b: 225 },
        Category::Targets => Rgb { r: 220, g: 225, b: 180 },
    }
}

/// The category under which a block kind is offered.
pub open spec fn category_of(t: BlockType) -> Category {
    match t {
        BlockType::SOURCE(_) => Category::Sources,
        BlockType::EFFECT(k) => match k {
            EffectType::ADD | EffectType::SUB | EffectType::MUL | EffectType::DIV | EffectType::MOD => Category::Arithmetic,
            EffectType::NEG | EffectType::INV => Category::Arithmetic,
            EffectType::SIN | EffectType::COS | EffectType::TAN => Category::Trig,
            EffectType::COT | EffectType::SEC | EffectType::CSC => Category::Trig,
            _ => Category::Coordinates,
        },
        BlockType::TARGET(_) => Category::Targets,
    }
}

/// The width of a block on screen: ten units per byte of its name for an
/// effect, which shows its name, and eighty for a source or a target.
pub open spec fn block_width(t: BlockType, name_len: nat) -> nat {
    match t {
        BlockType::EFFECT(_) => name_len * 10,
        _ => 80,
    }
}

/// The height of a block on screen: twenty units per row of terminals, and
/// twenty more for the label of an effect.
pub open spec fn block_height(t: BlockType, inputs: nat, outputs: nat) -> nat {
    let rows = if inputs >= outputs {
        inputs
    } else {
        outputs
    };
    match t {
        BlockType::EFFECT(_) => rows * 20 + 20,
        _ => rows * 20,
    }
}

/// The size of a block on screen, as width and height; `None` where a side
/// does not fit in 32 bits.
pub fn block_size(t: BlockType, name_len: usize, inputs: usize, outputs: usize) -> (size: Option<(u32, u32)>)
    ensures
        size.is_some() == (block_width(t, name_len as nat) <= u32::MAX && block_height(
            t,
            inputs as nat,
            outputs as nat,
        ) <= u32::MAX),
        size.is_some() ==> size.unwrap().0 == block_width(t, name_len as nat) && size.unwrap().1 == block_height(
            t,
            inputs as nat,
            outputs as nat,
        ),
{
    let rows = if inputs >= outputs {
        inputs
    } else {
        outputs
    };
    let effect = match t {
        BlockType::EFFECT(_) => true,
        _ => false,
    };
    let width: u32 = if effect {
        if name_len > 0x1999_9999 {
            return None;
        }
        (name_len * 10) as u32
    } else {
        80
    };
    let limit: usize = if effect {
        0x0ccc_cccb
    } else {
        0x0ccc_cccc
    };
    if rows > limit {
        return None;
    }
    let height: u32 = if effect {
        (rows * 20 + 20) as u32
    } else {
        (rows * 20) as u32
    };
    Some((width, height))
}

impl BlockType {
    /// The category under which the block kind is offered.
    pub fn category(self) -> (c: Category)
        ensures
            c == category_of(self),
    {
        match self {
            BlockType::SOURCE(_) => Category::Sources,
            BlockType::EFFECT(k) => match k {
                EffectType::ADD | EffectType::SUB | EffectType::MUL | EffectType::DIV | EffectType::MOD => Category::Arithmetic,
                EffectType::NEG | EffectType::INV => Category::Arithmetic,
                EffectType::SIN | EffectType::COS | EffectType::TAN => Category::Trig,
                EffectType::COT | EffectType::SEC | EffectType::CSC => Category::Trig,
                _ => Category::Coordinates,
            },
            BlockType::TARGET(_) => Category::Targets,
        }
    }
}

/// One connection point of a block.
#[derive(Debug)]
pub struct Terminal {
    /// Where the terminal was last drawn.
    pub pos: Point,
    /// The label shown beside the terminal.
    pub name: String,
    pub io: TermType,
    /// The block the terminal belongs to.
    pub parent: BlockId,
    /// The memoized value; `None` until computed, and again once an input it
    /// depends on is found disconnected.
    pub val: Option<Scalar>,
}

impl Terminal {
    /// A terminal at the origin.
    pub fn new(name: String, io: TermType, parent: BlockId, val: Option<Scalar>) -> (t: Terminal)
        ensures
            t == (Terminal { pos: Point::origin_spec(), name, io, parent, val }),
    {
        Terminal { pos: Point::origin(), name, io, parent, val }
    }
}

/// A node of the automation graph.
#[derive(Debug)]
pub struct Block {
    pub name: String,
    pub block_type: BlockType,
    /// The input terminals, top to bottom.
    pub in_idx: Vec<TerminalId>,
    /// The output terminals, top to bottom.
    pub out_idx: Vec<TerminalId>,
    pub pos: Point,
}

/// The views of a list of labels.
pub open spec fn label_views(labels: Seq<String>) -> Seq<Seq<char>> {
    Seq::new(labels.len(), |i: int| labels[i]@)
}

/// The pattern from which blocks of one kind are made.
#[derive(Debug)]
pub struct BlockArchetype {
    pub name: String,
    pub category: Category,
    pub block_type: BlockType,
    /// The labels of the input terminals.
    pub inputs: Vec<String>,
    /// The labels of the output terminals.
    pub outputs: Vec<String>,
}

/// The display name of the catalog entry for a block kind.
pub open spec fn catalog_name(t: BlockType) -> Seq<char> {
    match t {
        BlockType::SOURCE(SourceType::AUDIO) => "Audio"@,
        BlockType::SOURCE(SourceType::CONSTANT) => "Constant"@,
        BlockType::EFFECT(k) => match k {
            EffectType::ADD => "x+y"@,
            EffectType::SUB => "x-y"@,
            EffectType::MUL => "x*y"@,
            EffectType::DIV => "x/y"@,
            EffectType::MOD => "x%y"@,
            EffectType::NEG => "-x"@,
            EffectType::INV => "1/x"@,
            EffectType::SIN => "sin(x)"@,
            EffectType::COS => "cos(x)"@,
            EffectType::TAN => "tan(x)"@,
            EffectType::COT => "cot(x)"@,
            EffectType::SEC => "sec(x)"@,
            EffectType::CSC => "csc(x)"@,
            EffectType::P2C => "poltocar"@,
            EffectType::C2P => "cartopol"@,
            EffectType::S2C => "sphertocar"@,
            EffectType::C2S => "cartospher"@,
        },
        BlockType::TARGET(TargetType::ITERATOR(_)) => "Iterator"@,
        BlockType::TARGET(TargetType::DISPLAY) => "Display"@,
    }
}

/// The input labels of the catalog entry for a block kind.
pub open spec fn catalog_inputs(t: BlockType) -> Seq<Seq<char>> {
    match t {
        BlockType::SOURCE(_) => seq![],
        BlockType::EFFECT(k) => match k {
            EffectType::ADD | EffectType::SUB | EffectType::MUL | EffectType::DIV | EffectType::MOD => seq!["x"@, "y"@],
            EffectType::P2C => seq!["r"@, "θ"@],
            EffectType::C2P => seq!["x"@, "y"@],
            EffectType::S2C => seq!["ρ"@, "θ"@, "φ"@],
            EffectType::C2S => seq!["x"@, "y"@, "z"@],
            _ => seq![""@],
        },
        BlockType::TARGET(_) => seq![""@],
    }
}

/// The output labels of the catalog entry for a block kind.
pub open spec fn catalog_outputs(t: BlockType) -> Seq<Seq<char>> {
    match t {
        BlockType::SOURCE(SourceType::AUDIO) => seq!["RMS"@],
        BlockType::SOURCE(SourceType::CONSTANT) => seq!["0"@],
        BlockType::EFFECT(k) => match k {
            EffectType::P2C => seq!["x"@, "y"@],
            EffectType::C2P => seq!["r"@, "θ"@],
            EffectType::S2C => seq!["x"@, "y"@, "z"@],
            EffectType::C2S => seq!["ρ"@, "θ"@, "φ"@],
            _ => seq![""@],
        },
        BlockType::TARGET(_) => seq![],
    }
}

/// The size on screen of a block made after an archetype: the width counts
/// the bytes of the name in UTF-8, as a machine word.
pub open spec fn block_size_of(a: BlockArchetype) -> Option<(u32, u32)> {
    let w = block_width(a.block_type, (vstd::utf8::encode_utf8(a.name@).len() as usize) as nat);
    let h = block_height(a.block_type, a.inputs@.len(), a.outputs@.len());
    if w <= u32::MAX && h <= u32::MAX {
        Some((w as u32, h as u32))
    } else {
        None
    }
}

impl BlockArchetype {
    /// The archetype's numbers of inputs and outputs fit its kind.
    pub open spec fn wf(&self) -> bool {
        shape_fits(self.block_type, self.inputs@.len(), self.outputs@.len())
    }

    /// An archetype of the given kind, with the category and colour group that
    /// the kind belongs to.
    pub fn new(block_type: BlockType, name: String, inputs: Vec<String>, outputs: Vec<String>) -> (a: BlockArchetype)
        ensures
            a == (BlockArchetype { name, category: category_of(block_type), block_type, inputs, outputs }),
    {
        BlockArchetype { name, category: block_type.category(), block_type, inputs, outputs }
    }

    /// The size on screen of a block made after the archetype; `None` where
    /// a side does not fit in 32 bits.
    pub fn size(&self) -> (size: Option<(u32, u32)>)
        ensures
            size == block_size_of(*self),
    {
        block_size(self.block_type, self.name.as_str().len(), self.inputs.len(), self.outputs.len())
    }

    /// The catalog entry for a block kind.
    pub fn from_type(n: BlockType) -> (a: BlockArchetype)
        ensures
            a.block_type == n,
            a.category == category_of(n),
            a.name@ == catalog_name(n),
            label_views(a.inputs@) == catalog_inputs(n),
            label_views(a.outputs@) == catalog_outputs(n),
            a.wf(),
    {
        let a = match n {
            BlockType::SOURCE(SourceType::AUDIO) => Self::new(n, "Audio".to_owned(), labels0(), labels1("RMS")),
            BlockType::SOURCE(SourceType::CONSTANT) => Self::new(n, "Constant".to_owned(), labels0(), labels1("0")),
            BlockType::EFFECT(k) => match k {
                EffectType::ADD => Self::new(n, "x+y".to_owned(), labels2("x", "y"), labels1("")),
                EffectType::SUB => Self::new(n, "x-y".to_owned(), labels2("x", "y"), labels1("")),
                EffectType::MUL => Self::new(n, "x*y".to_owned(), labels2("x", "y"), labels1("")),
                EffectType::DIV => Self::new(n, "x/y".to_owned(), labels2("x", "y"), labels1("")),
                EffectType::MOD => Self::new(n, "x%y".to_owned(), labels2("x", "y"), labels1("")),
                EffectType::NEG => Self::new(n, "-x".to_owned(), labels1(""), labels1("")),
                EffectType::INV => Self::new(n, "1/x".to_owned(), labels1(""), labels1("")),
                EffectType::SIN => Self::new(n, "sin(x)".to_owned(), labels1(""), labels1("")),
                EffectType::COS => Self::new(n, "cos(x)".to_owned(), labels1(""), labels1("")),
                EffectType::TAN => Self::new(n, "tan(x)".to_owned(), labels1(""), labels1("")),
                EffectType::COT => Self::new(n, "cot(x)".to_owned(), labels1(""), labels1("")),
                EffectType::SEC => Self::new(n, "sec(x)".to_owned(), labels1(""), labels1("")),
                EffectType::CSC => Self::new(n, "csc(x)".to_owned(), labels1(""), labels1("")),
                EffectType::P2C => Self::new(n, "poltocar".to_owned(), labels2("r", "θ"), labels2("x", "y")),
                EffectType::C2P => Self::new(n, "cartopol".to_owned(), labels2("x", "y"), labels2("r", "θ")),
                EffectType::S2C => Self::new(n, "sphertocar".to_owned(), labels3("ρ", "θ", "φ"), labels3("x", "y", "z")),
                EffectType::C2S => Self::new(n, "cartospher".to_owned(), labels3("x", "y", "z"), labels3("ρ", "θ", "φ")),
            },
            BlockType::TARGET(TargetType::ITERATOR(_)) => Self::new(n, "Iterator".to_owned(), labels1(""), labels0()),
            BlockType::TARGET(TargetType::DISPLAY) => Self::new(n, "Display".to_owned(), labels1(""), labels0()),
        };
        assert(label_views(a.inputs@) =~= catalog_inputs(n));
        assert(label_views(a.outputs@) =~= catalog_outputs(n));
        a
    }
}

/// The kinds of block that the editor offers, in menu order: the sources,
/// every effect, and the display probe.
pub open spec fn catalog_kinds() -> Seq<BlockType> {
    seq![BlockType::SOURCE(SourceType::AUDIO), BlockType::SOURCE(SourceType::CONSTANT)] + Seq::new(
        effect_kinds().len(),
        |i: int| BlockType::EFFECT(effect_kinds()[i]),
    ) + seq![BlockType::TARGET(TargetType::DISPLAY)]
}

/// `a` is the catalog entry for the kind `t`.
pub open spec fn is_catalog_entry(a: BlockArchetype, t: BlockType) -> bool {
    &&& a.block_type == t
    &&& a.category == category_of(t)
    &&& a.name@ == catalog_name(t)
    &&& label_views(a.inputs@) == catalog_inputs(t)
    &&& label_views(a.outputs@) == catalog_outputs(t)
    &&& a.wf()
}

/// The archetypes that the editor offers, in menu order. Categories come in
/// runs: sources, arithmetic, trigonometry, coordinates, targets.
pub fn archetype_catalog() -> (catalog: Vec<BlockArchetype>)
    ensures
        catalog@.len() == catalog_kinds().len(),
        catalog@.len() == 20,
        forall|i: int| 0 <= i < catalog@.len() ==> is_catalog_entry(#[trigger] catalog@[i], catalog_kinds()[i]),
{
    let mut catalog: Vec<BlockArchetype> = Vec::new();
    catalog.push(BlockArchetype::from_type(BlockType::SOURCE(SourceType::AUDIO)));
    catalog.push(BlockArchetype::from_type(BlockType::SOURCE(SourceType::CONSTANT)));
    let kinds = EffectType::all();
    let mut i: usize = 0;
    while i < kinds.len()
        invariant
            i <= kinds@.len(),
            kinds@ == effect_kinds(),
            kinds@.len() == 17,
            catalog@.len() == i + 2,
            forall|j: int| 0 <= j < catalog@.len() ==> is_catalog_entry(#[trigger] catalog@[j], catalog_kinds()[j]),
        decreases kinds@.len() - i,
    {
        catalog.push(BlockArchetype::from_type(BlockType::EFFECT(kinds[i])));
        i += 1;
    }
    catalog.push(BlockArchetype::from_type(BlockType::TARGET(TargetType::DISPLAY)));
    catalog
}

/// The categories of a list of archetypes, in list order.
pub open spec fn categories_of(catalog: Seq<BlockArchetype>) -> Seq<Category> {
    Seq::new(catalog.len(), |i: int| catalog[i].category)
}

/// A list of categories with every run of equal neighbours shortened to one.
pub open spec fn runs(cs: Seq<Category>) -> Seq<Category>
    decreases cs.len(),
{
    if cs.len() == 0 {
        Seq::empty()
    } else if cs.len() == 1 {
        cs
    } else if cs[cs.len() - 2] == cs.last() {
        runs(cs.drop_last())
    } else {
        runs(cs.drop_last()).push(cs.last())
    }
}

/// The headings of the menu that offers the archetypes: their categories in
/// list order, each run of equal neighbours once. For a catalog in which
/// every category forms one run, these are its categories, each once.
pub fn menu_categories(catalog: &Vec<BlockArchetype>) -> (headings: Vec<Category>)
    ensures
        headings@ == runs(categories_of(catalog@)),
{
    let mut headings: Vec<Category> = Vec::new();
    let mut i: usize = 0;
    proof {
        assert(categories_of(catalog@).take(0) =~= Seq::<Category>::empty());
    }
    while i < catalog.len()
        invariant
            i <= catalog@.len(),
            headings@ == runs(categories_of(catalog@).take(i as int)),
        decreases catalog@.len() - i,
    {
        let c = catalog[i].category;
        proof {
            let cs = categories_of(catalog@);
            let next = cs.take(i + 1);
            assert(next.drop_last() == cs.take(i as int));
            assert(next.last() == c);
            if i > 0 {
                assert(next[next.len() - 2] == cs[i - 1]);
            }
        }
        if i == 0 || !(catalog[i - 1].category == c) {
            headings.push(c);
        }
        i += 1;
    }
    proof {
        assert(categories_of(catalog@).take(catalog@.len() as int) == categories_of(catalog@));
    }
    headings
}

impl Category {
    /// The heading under which the category is offered.
    pub fn label(self) -> (r: &'static str)
        ensures
            r@ == category_label(self),
    {
        match self {
            Category::Sources => "Sources",
            Category::Arithmetic => "Arithmetic",
            Category::Trig => "Trig",
            Category::Coordinates => "Coordinates",
            Category::Targets => "Targets",
        }
    }
}

/// The heading under which a category is offered.
pub open spec fn category_label(c: Category) -> Seq<char> {
    match c {
        Category::Sources => "Sources"@,
        Category::Arithmetic => "Arithmetic"@,
        Category::Trig => "Trig"@,
        Category::Coordinates => "Coordinates"@,
        Category::Targets => "Targets"@,
    }
}

fn labels0() -> (v: Vec<String>)
    ensures
        v@.len() == 0,
{
    Vec::new()
}

fn labels1(a: &str) -> (v: Vec<String>)
    ensures
        v@.len() == 1,
        v@[0]@ == a@,
{
    let mut v = Vec::new();
    v.push(a.to_owned());
    v
}

fn labels2(a: &str, b: &str) -> (v: Vec<String>)
    ensures
        v@.len() == 2,
        v@[0]@ == a@,
        v@[1]@ == b@,
{
    let mut v = Vec::new();
    v.push(a.to_owned());
    v.push(b.to_owned());
    v
}

fn labels3(a: &str, b: &str, c: &str) -> (v: Vec<String>)
    ensures
        v@.len() == 3,
        v@[0]@ == a@,
        v@[1]@ == b@,
        v@[2]@ == c@,
{
    let mut v = Vec::new();
    v.push(a.to_owned());
    v.push(b.to_owned());
    v.push(c.to_owned());
    v
}

} // verus!
