//! The generator of the TypeScript client, which a template renders.

use vstd::prelude::*;
use vstd::string::*;
use crate::config::schema::{GenerationConfig, GenerationConfigView};
use crate::error::{Error, ErrorView};
use crate::generators::{
    render_request, render_request_of, Generation, GenerationView, Generator, TemplateTarget,
};
use crate::parsers::schema_ir::{SchemaIR, SchemaIRView, TypeInfo};
use crate::projection::zod_type;

verus! {

/// The generator of the TypeScript client.
#[derive(Debug, Clone, Copy)]
pub struct TypeScriptGenerator;

impl Generator for TypeScriptGenerator {
    open spec fn generator_name(&self) -> Seq<char> {
        "typescript"@
    }

    open spec fn extension(&self) -> Seq<char> {
        "ts"@
    }

    open spec fn generation(&self, ir: SchemaIRView, config: GenerationConfigView) -> Result<
        GenerationView,
        ErrorView,
    > {
        Ok(GenerationView::Render(render_request_of(TemplateTarget::TypeScript, ir, config)))
    }

    open spec fn validation(&self, config: GenerationConfigView) -> Result<(), ErrorView> {
        Ok(())
    }

    fn validate_config(&self, config: &GenerationConfig) -> (result: Result<(), Error>) {
        Ok(())
    }

    fn name(&self) -> (name: String) {
        String::from_str("typescript")
    }

    fn file_extension(&self) -> (extension: String) {
        String::from_str("ts")
    }

    fn generate_from_ir(&self, schema_ir: &SchemaIR, config: &GenerationConfig) -> (result: Result<
        Generation,
        Error,
    >) {
        Ok(Generation::Render(render_request(TemplateTarget::TypeScript, schema_ir, config)))
    }
}

/// The validation target's projection of a type node.
pub fn type_info_to_typescript_zod(type_info: &TypeInfo) -> (out: String)
    ensures
        out@ == zod_type(type_info@),
{
    type_info.to_typescript()
}

} // verus!
