//! The generator of the Golang client, which a template renders.

use vstd::prelude::*;
use vstd::string::*;
use crate::config::schema::{GenerationConfig, GenerationConfigView};
use crate::error::{Error, ErrorView};
use crate::generators::{
    render_request, render_request_of, Generation, GenerationView, Generator, TemplateTarget,
};
use crate::parsers::schema_ir::{SchemaIR, SchemaIRView, TypeInfo};
use crate::projection::golang_type;

verus! {

/// The generator of the Go client.
#[derive(Debug, Clone, Copy)]
pub struct GolangGenerator;

impl Generator for GolangGenerator {
    open spec fn generator_name(&self) -> Seq<char> {
        "golang"@
    }

    open spec fn extension(&self) -> Seq<char> {
        "go"@
    }

    open spec fn generation(&self, ir: SchemaIRView, config: GenerationConfigView) -> Result<
        GenerationView,
        ErrorView,
    > {
        Ok(GenerationView::Render(render_request_of(TemplateTarget::Golang, ir, config)))
    }

    open spec fn validation(&self, config: GenerationConfigView) -> Result<(), ErrorView> {
        Ok(())
    }

    fn validate_config(&self, config: &GenerationConfig) -> (result: Result<(), Error>) {
        Ok(())
    }

    fn name(&self) -> (name: String) {
        String::from_str("golang")
    }

    fn file_extension(&self) -> (extension: String) {
        String::from_str("go")
    }

    fn generate_from_ir(&self, schema_ir: &SchemaIR, config: &GenerationConfig) -> (result: Result<
        Generation,
        Error,
    >) {
        Ok(Generation::Render(render_request(TemplateTarget::Golang, schema_ir, config)))
    }
}

/// The compiled target's projection of a type node.
pub fn type_info_to_golang(type_info: &TypeInfo) -> (out: String)
    ensures
        out@ == golang_type(type_info@),
{
    type_info.to_golang()
}

} // verus!
