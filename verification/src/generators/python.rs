//! The generator of the Python client, which a template renders.

use vstd::prelude::*;
use vstd::string::*;
use crate::config::schema::{GenerationConfig, GenerationConfigView};
use crate::error::{Error, ErrorView};
use crate::generators::{
    render_request, render_request_of, Generation, GenerationView, Generator, TemplateTarget,
};
use crate::parsers::schema_ir::{SchemaIR, SchemaIRView, TypeInfo};
use crate::projection::python_type;

verus! {

/// The generator of the Python client.
#[derive(Debug, Clone, Copy)]
pub struct PythonGenerator;

impl Generator for PythonGenerator {
    open spec fn generator_name(&self) -> Seq<char> {
        "python"@
    }

    open spec fn extension(&self) -> Seq<char> {
        "py"@
    }

    open spec fn generation(&self, ir: SchemaIRView, config: GenerationConfigView) -> Result<
        GenerationView,
        ErrorView,
    > {
        Ok(GenerationView::Render(render_request_of(TemplateTarget::Python, ir, config)))
    }

    open spec fn validation(&self, config: GenerationConfigView) -> Result<(), ErrorView> {
        Ok(())
    }

    fn validate_config(&self, config: &GenerationConfig) -> (result: Result<(), Error>) {
        Ok(())
    }

    fn name(&self) -> (name: String) {
        String::from_str("python")
    }

    fn file_extension(&self) -> (extension: String) {
        String::from_str("py")
    }

    fn generate_from_ir(&self, schema_ir: &SchemaIR, config: &GenerationConfig) -> (result: Result<
        Generation,
        Error,
    >) {
        Ok(Generation::Render(render_request(TemplateTarget::Python, schema_ir, config)))
    }
}

/// The dynamic target's projection of a type node.
pub fn type_info_to_python(type_info: &TypeInfo) -> (out: String)
    ensures
        out@ == python_type(type_info@),
{
    type_info.to_python()
}

} // verus!
