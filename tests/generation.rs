use bundle::bundle;
use bundle::generate::{generate, parse_options};
use bundle::model::{BundleError, Declaration, Fields, Options, Variant};
use bundle::naming::{dispatch_names, snake_name};

fn unit(name: &str) -> Variant {
    Variant {
        attrs: String::new(),
        name: name.to_string(),
        fields: Fields::Unit,
        discriminant: None,
    }
}

fn tuple(name: &str, tys: &[&str]) -> Variant {
    Variant {
        attrs: String::new(),
        name: name.to_string(),
        fields: Fields::Unnamed(tys.iter().map(|t| t.to_string()).collect()),
        discriminant: None,
    }
}

fn declaration(attrs: &str, name: &str, variants: Vec<Variant>) -> Declaration {
    Declaration {
        attrs: attrs.to_string(),
        vis: String::new(),
        name: name.to_string(),
        impl_generics: String::new(),
        ty_generics: String::new(),
        where_clause: String::new(),
        variants,
    }
}

fn my_bundle(attrs: &str) -> Declaration {
    declaration(attrs, "MyBundle", vec![unit("A"), unit("B"), unit("C")])
}

trait Foo {
    fn bar(self) -> u8;
}

#[derive(Clone)]
struct A;
#[derive(Clone)]
struct B;
#[derive(Clone)]
struct C;

impl Foo for A {
    fn bar(self) -> u8 {
        0
    }
}

impl Foo for B {
    fn bar(self) -> u8 {
        1
    }
}

impl Foo for C {
    fn bar(self) -> u8 {
        2
    }
}

// The union and the `use_my_bundle!(bundle, |inner| { inner.bar() })` arms
// exactly as the generator writes them for `MyBundle { A, B, C }`.
#[derive(Clone)]
enum MyBundle {
    A(A),
    B(B),
    C(C),
}

impl Into<MyBundle> for B {
    fn into(self) -> MyBundle {
        MyBundle::B(self)
    }
}

fn use_bar(bundle: MyBundle) -> u8 {
    match bundle {
        MyBundle::A(inner) => inner.bar(),
        MyBundle::B(inner) => inner.bar(),
        MyBundle::C(inner) => inner.bar(),
    }
}

impl Foo for MyBundle {
    fn bar(self) -> u8 {
        use_bar(self)
    }
}

fn lines(ls: &[&str]) -> String {
    ls.iter().map(|l| format!("{l}\n")).collect()
}

fn basic_output() -> String {
    lines(&[
        "",
        " enum MyBundle  {",
        "    A(A),",
        "    B(B),",
        "    C(C),",
        "}",
        "impl Into<MyBundle> for A  {",
        "    #[inline]",
        "    fn into(self) -> MyBundle {",
        "        MyBundle::A(self)",
        "    }",
        "}",
        "impl Into<MyBundle> for B  {",
        "    #[inline]",
        "    fn into(self) -> MyBundle {",
        "        MyBundle::B(self)",
        "    }",
        "}",
        "impl Into<MyBundle> for C  {",
        "    #[inline]",
        "    fn into(self) -> MyBundle {",
        "        MyBundle::C(self)",
        "    }",
        "}",
        "#[allow(unused)]",
        "macro_rules! use_my_bundle {",
        "    ($BUNDLE:expr, |$LOCAL:ident| $CODE:block) => {",
        "        match $BUNDLE {",
        "            MyBundle::A($LOCAL) => $CODE,",
        "            MyBundle::B($LOCAL) => $CODE,",
        "            MyBundle::C($LOCAL) => $CODE,",
        "        }",
        "    };",
        "}",
        "#[allow(unused)]",
        "macro_rules! match_my_bundle {",
        "    ($VALUE:expr, $KIND:ident::$ALIAS:ident => $MATCH:block else $ELSE:block) => {",
        "        match $VALUE {",
        "            $KIND::A => {",
        "                type $ALIAS = A;",
        "                $MATCH",
        "            }",
        "            $KIND::B => {",
        "                type $ALIAS = B;",
        "                $MATCH",
        "            }",
        "            $KIND::C => {",
        "                type $ALIAS = C;",
        "                $MATCH",
        "            }",
        "            #[allow(unreachable_patterns)]",
        "            _ => $ELSE,",
        "        }",
        "    };",
        "}",
    ])
}

#[test]
fn lib_basic() {
    let out = bundle("", &my_bundle("")).unwrap();
    assert_eq!(out, basic_output());

    let bundle = MyBundle::B(B);
    assert_eq!(use_bar(bundle), 1);
}

#[test]
fn impls() {
    let out = bundle("", &my_bundle("")).unwrap();
    assert!(out.contains("            MyBundle::A($LOCAL) => $CODE,\n"));

    let bundle = MyBundle::A(A);
    assert_eq!(bundle.bar(), 0);
}

#[test]
fn lib_derive() {
    let out = bundle("", &my_bundle("#[derive(Clone)]")).unwrap();
    assert!(out.starts_with("#[derive(Clone)]\n enum MyBundle  {\n    A(A),\n"));

    let bundle = MyBundle::C(C);
    assert_eq!(use_bar(bundle.clone()), 2);
}

trait Serialize {
    fn serialize_into(&self, buf: &mut Vec<u8>);

    fn serialize(&self) -> Vec<u8> {
        let mut buf = Vec::new();
        self.serialize_into(&mut buf);
        buf
    }
}

struct SerA {
    val: u8,
}

struct SerB {
    val: u16,
}

struct SerC {
    val: u8,
    other: SerA,
}

impl Serialize for SerA {
    fn serialize_into(&self, buf: &mut Vec<u8>) {
        buf.push(self.val);
    }
}

impl Serialize for SerB {
    fn serialize_into(&self, buf: &mut Vec<u8>) {
        buf.extend_from_slice(&self.val.to_le_bytes());
    }
}

impl Serialize for SerC {
    fn serialize_into(&self, buf: &mut Vec<u8>) {
        buf.push(self.val);
        self.other.serialize_into(buf);
    }
}

// The generated `MyBundle { A, B, C = 0x10 }`, with a serializer that
// writes the active tag (0, 1 and 0x10) and then the payload.
enum SerBundle {
    A(SerA),
    B(SerB),
    C(SerC),
}

impl Serialize for SerBundle {
    fn serialize_into(&self, buf: &mut Vec<u8>) {
        match self {
            SerBundle::A(inner) => {
                buf.push(0);
                inner.serialize_into(buf);
            }
            SerBundle::B(inner) => {
                buf.push(1);
                inner.serialize_into(buf);
            }
            SerBundle::C(inner) => {
                buf.push(0x10);
                inner.serialize_into(buf);
            }
        }
    }
}

#[test]
fn lib_tiny_serde() {
    let mut c = unit("C");
    c.discriminant = Some("0x10".to_string());
    let d = declaration("#[derive(Serialize)] #[repr(u8)]", "MyBundle", vec![unit("A"), unit("B"), c]);
    let out = bundle("", &d).unwrap();
    assert!(out.starts_with(
        "#[derive(Serialize)] #[repr(u8)]\n enum MyBundle  {\n    A(A),\n    B(B),\n    C(C) = 0x10,\n}\n"
    ));

    let buf = SerBundle::C(SerC {
        val: 15,
        other: SerA { val: 20 },
    })
    .serialize();
    assert_eq!(buf, [0x10, 15, 20]);
    assert_eq!(SerBundle::B(SerB { val: 7 }).serialize(), [1, 7, 0]);
}

trait Marker {}
trait Bound {}

impl Marker for u8 {}
impl Bound for u8 {}

struct GenA<T: Bound> {
    #[allow(unused)]
    val: T,
}
struct GenB;
struct GenC<T: Marker> {
    #[allow(unused)]
    val: T,
}

impl Marker for GenB {}

// The generated `MyBundle<T: Bar, U: Foo> { A(A<T>), B, C(C<U>) }`.
#[allow(unused)]
enum GenBundle<T: Bound, U: Marker> {
    A(GenA<T>),
    B(GenB),
    C(GenC<U>),
}

#[test]
fn lib_generics() {
    let mut d = declaration(
        "",
        "MyBundle",
        vec![tuple("A", &["A<T>"]), unit("B"), tuple("C", &["C<U>"])],
    );
    d.impl_generics = "<T: Bar, U: Foo>".to_string();
    d.ty_generics = "<T, U>".to_string();
    let out = bundle("", &d).unwrap();
    assert!(out.starts_with("\n enum MyBundle<T: Bar, U: Foo>  {\n    A(A<T>),\n    B(B),\n    C(C<U>),\n}\n"));
    assert!(out.contains("impl<T: Bar, U: Foo> Into<MyBundle<T, U>> for A<T>  {\n"));
    assert!(out.contains("impl<T: Bar, U: Foo> Into<MyBundle<T, U>> for B  {\n"));
    assert!(out.contains("impl<T: Bar, U: Foo> Into<MyBundle<T, U>> for C<U>  {\n"));

    let _bundle: GenBundle<_, GenB> = GenBundle::A(GenA { val: 0u8 });
    let _bundle: GenBundle<u8, _> = GenBundle::C(GenC { val: GenB });
}

#[test]
fn conversion_then_dispatch() {
    let bundle: MyBundle = B.into();
    assert_eq!(use_bar(bundle), 1);
}

#[test]
fn dispatch_names_are_snake_case() {
    let (u, m) = dispatch_names("MyBundle");
    assert_eq!(u, "use_my_bundle");
    assert_eq!(m, "match_my_bundle");
    assert_eq!(snake_name("HTTPFooBar"), "http_foo_bar");
    assert_eq!(snake_name("already_snake"), "already_snake");
}

#[test]
fn export_marks_both_macros() {
    let out = bundle("export", &my_bundle("")).unwrap();
    assert_eq!(out.matches("#[macro_export]\n#[allow(unused)]\nmacro_rules! ").count(), 2);
    assert!(!out.contains("fn inner"));
}

#[test]
fn capability_adds_inner_method() {
    let out = bundle("Foo", &my_bundle("")).unwrap();
    assert!(out.ends_with(&lines(&[
        "impl MyBundle  {",
        "     fn inner(&mut self) -> &mut dyn Foo {",
        "        match self {",
        "            MyBundle::A(value) => value,",
        "            MyBundle::B(value) => value,",
        "            MyBundle::C(value) => value,",
        "        }",
        "    }",
        "}",
    ])));
    assert!(!out.contains("#[macro_export]"));
}

#[test]
fn options_are_read_from_the_argument() {
    let o = parse_options("").unwrap();
    assert!(!o.export && o.capability.is_none());
    let o = parse_options("export").unwrap();
    assert!(o.export && o.capability.is_none());
    let o = parse_options("Foo_2").unwrap();
    assert!(!o.export && o.capability == Some("Foo_2".to_string()));
    assert!(matches!(parse_options("Foo<u8>"), Err(BundleError::BadArgument)));
    assert!(matches!(parse_options("2Foo"), Err(BundleError::BadArgument)));
    assert!(matches!(bundle("not a name", &my_bundle("")), Err(BundleError::BadArgument)));
}

#[test]
fn empty_declaration_is_refused() {
    let d = declaration("", "MyBundle", vec![]);
    assert_eq!(bundle("", &d), Err(BundleError::Empty));
}

#[test]
fn duplicate_members_are_refused() {
    let d = declaration("", "MyBundle", vec![unit("A"), unit("B"), unit("A")]);
    assert_eq!(bundle("", &d), Err(BundleError::Duplicate(2)));
    let d = declaration("", "MyBundle", vec![unit("A"), tuple("B", &["A"]), unit("C")]);
    assert_eq!(bundle("", &d), Err(BundleError::Duplicate(1)));
}

#[test]
fn malformed_variants_are_refused() {
    let d = declaration("", "MyBundle", vec![unit("A"), tuple("B", &["X", "Y"]), unit("C")]);
    assert_eq!(bundle("", &d), Err(BundleError::FieldCount(1)));
    let d = declaration("", "MyBundle", vec![unit("A"), tuple("B", &[])]);
    assert_eq!(bundle("", &d), Err(BundleError::FieldCount(1)));
    let named = Variant {
        attrs: String::new(),
        name: "N".to_string(),
        fields: Fields::Named(vec!["x: u8".to_string()]),
        discriminant: None,
    };
    let d = declaration("", "MyBundle", vec![named, unit("B")]);
    assert_eq!(bundle("", &d), Err(BundleError::StructVariant(0)));
}

#[test]
fn shape_is_checked_before_uniqueness() {
    let d = declaration("", "MyBundle", vec![unit("A"), unit("A"), tuple("C", &["X", "Y"])]);
    assert_eq!(bundle("", &d), Err(BundleError::FieldCount(2)));
}

#[test]
fn one_arm_per_member() {
    let d = declaration("", "Many", vec![unit("P"), unit("Q"), unit("R"), unit("S")]);
    let o = Options { export: false, capability: Some("Cap".to_string()) };
    let out = generate(&o, &d).unwrap();
    assert_eq!(out.matches("($LOCAL) => $CODE,\n").count(), 4);
    assert_eq!(out.matches(" => {\n                type $ALIAS = ").count(), 4);
    assert_eq!(out.matches("(value) => value,\n").count(), 4);
    assert_eq!(out.matches("    fn into(self) -> Many {\n").count(), 4);
    for tag in ["P", "Q", "R", "S"] {
        assert!(out.contains(&format!("impl Into<Many> for {tag}  {{")));
        assert!(out.contains(&format!("        Many::{tag}(self)\n")));
        assert!(out.contains(&format!("            Many::{tag}($LOCAL) => $CODE,\n")));
    }
}
