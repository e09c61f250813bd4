use umbrello::codegen::cpp::CppGenerator;
use umbrello::codegen::registry::GeneratorRegistry;
use umbrello::codegen::writer::CodeWriter;
use umbrello::codegen::ProgrammingLanguage;
use umbrello::common::UmbrelloError;
use umbrello::event::ModelEvent;
use umbrello::export::{ExportError, ExportFormat};
use umbrello::import::{CppImporter, JavaImporter, PythonImporter};
use umbrello::render::{Canvas, WidgetRenderer};
use umbrello::xmi::XmiWriter;

#[test]
fn code_writer_indents_lines() {
    let mut w = CodeWriter::new("    ");
    w.writeln("class A {");
    w.indent();
    w.writeln("int x;");
    w.indent();
    w.writeln("deep");
    w.dedent();
    w.blank_line();
    w.dedent();
    w.dedent();
    w.writeln("};");
    assert_eq!(w.into_string(), "class A {\n    int x;\n        deep\n\n};\n");
}

#[test]
fn code_writer_default_has_no_indent_unit() {
    let mut w = CodeWriter::default();
    w.indent();
    w.writeln("x");
    assert_eq!(w.into_string(), "x\n");
}

#[test]
fn registry_and_generators_construct() {
    let _r = GeneratorRegistry::new();
    let _d = GeneratorRegistry::default();
    let _g = CppGenerator::new();
    let _g2 = umbrello::codegen_java::JavaGenerator::default();
    assert_ne!(ProgrammingLanguage::Rust, ProgrammingLanguage::Cpp);
}

#[test]
fn stubs_construct() {
    let _x = XmiWriter::new();
    let _c = CppImporter::new();
    let _j = JavaImporter::default();
    let _p = PythonImporter::new();
    assert_eq!(ExportFormat::Png(96), ExportFormat::Png(96));
    assert_ne!(ExportFormat::Svg, ExportFormat::Pdf);
    assert!(matches!(ExportError::UnsupportedFormat, ExportError::UnsupportedFormat));
    assert!(matches!(UmbrelloError::Parse("x".into()), UmbrelloError::Parse(_)));
    assert_ne!(ModelEvent::ObjectCreated, ModelEvent::ObjectRemoved);
}

struct Dot;

impl WidgetRenderer for Dot {}

#[test]
fn default_renderer_draws_nothing() {
    let mut canvas = Canvas;
    Dot.draw(&mut canvas);
}
