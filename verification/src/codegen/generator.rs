//! The builder that configures a code-generation run.
//!
//! Everything here is plain configuration; driving the IDL compiler
//! and writing files out belongs to the host program.

use vstd::prelude::*;

use crate::codegen::service::Attributes;

verus! {

/// The configuration a generation run works from.
#[derive(Clone, Debug)]
pub struct Builder {
    pub build_client: bool,
    pub build_server: bool,
    pub file_descriptor_set_path: Option<String>,
    pub extern_path: Vec<(String, String)>,
    pub field_attributes: Vec<(String, String)>,
    pub type_attributes: Vec<(String, String)>,
    pub server_attributes: Attributes,
    pub client_attributes: Attributes,
    pub proto_path: String,
    pub emit_package: bool,
    pub compile_well_known_types: bool,
    pub protoc_args: Vec<String>,
    pub out_dir: Option<String>,
    pub format: bool,
}

impl Builder {
    /// Whether to emit the client side.
    pub fn build_client(self, enable: bool) -> (r: Builder)
        ensures
            r == (Builder { build_client: enable, ..self }),
    {
        Builder { build_client: enable, ..self }
    }

    /// Whether to emit the server side.
    pub fn build_server(self, enable: bool) -> (r: Builder)
        ensures
            r == (Builder { build_server: enable, ..self }),
    {
        Builder { build_server: enable, ..self }
    }

    /// Where to write the file descriptor set.
    pub fn file_descriptor_set_path(self, path: &str) -> (r: Builder)
        ensures
            r == (Builder { file_descriptor_set_path: r.file_descriptor_set_path, ..self }),
            r.file_descriptor_set_path matches Some(p) && p@ == path@,
    {
        Builder { file_descriptor_set_path: Some(path.to_owned()), ..self }
    }

    /// Whether to run the emitted code through a formatter.
    pub fn format(self, run: bool) -> (r: Builder)
        ensures
            r == (Builder { format: run, ..self }),
    {
        Builder { format: run, ..self }
    }

    /// Where generated files go.
    pub fn out_dir(self, out_dir: &str) -> (r: Builder)
        ensures
            r == (Builder { out_dir: r.out_dir, ..self }),
            r.out_dir matches Some(p) && p@ == out_dir@,
    {
        Builder { out_dir: Some(out_dir.to_owned()), ..self }
    }

    /// Map a protobuf path onto an externally defined type.
    pub fn extern_path(self, proto_path: &str, rust_path: &str) -> (r: Builder)
        ensures
            r == (Builder { extern_path: r.extern_path, ..self }),
            r.extern_path@.len() == self.extern_path@.len() + 1,
            r.extern_path@.drop_last() == self.extern_path@,
            r.extern_path@.last().0@ == proto_path@,
            r.extern_path@.last().1@ == rust_path@,
    {
        let mut b = self;
        b.extern_path.push((proto_path.to_owned(), rust_path.to_owned()));
        b
    }

    /// Add an attribute above matching generated fields.
    pub fn field_attribute(self, path: &str, attribute: &str) -> (r: Builder)
        ensures
            r == (Builder { field_attributes: r.field_attributes, ..self }),
            r.field_attributes@.len() == self.field_attributes@.len() + 1,
            r.field_attributes@.drop_last() == self.field_attributes@,
            r.field_attributes@.last().0@ == path@,
            r.field_attributes@.last().1@ == attribute@,
    {
        let mut b = self;
        b.field_attributes.push((path.to_owned(), attribute.to_owned()));
        b
    }

    /// Add an attribute above matching generated types.
    pub fn type_attribute(self, path: &str, attribute: &str) -> (r: Builder)
        ensures
            r == (Builder { type_attributes: r.type_attributes, ..self }),
            r.type_attributes@.len() == self.type_attributes@.len() + 1,
            r.type_attributes@.drop_last() == self.type_attributes@,
            r.type_attributes@.last().0@ == path@,
            r.type_attributes@.last().1@ == attribute@,
    {
        let mut b = self;
        b.type_attributes.push((path.to_owned(), attribute.to_owned()));
        b
    }

    /// Add an attribute above matching generated server modules.
    pub fn server_mod_attribute(self, path: &str, attribute: &str) -> (r: Builder)
        ensures
            r == (Builder { server_attributes: r.server_attributes, ..self }),
            r.server_attributes.spec_module() == self.server_attributes.spec_module().push(
                (path@, attribute@),
            ),
            r.server_attributes.spec_structure() == self.server_attributes.spec_structure(),
    {
        let mut b = self;
        b.server_attributes.push_mod(path, attribute);
        b
    }

    /// Add an attribute above matching generated server structs.
    pub fn server_attribute(self, path: &str, attribute: &str) -> (r: Builder)
        ensures
            r == (Builder { server_attributes: r.server_attributes, ..self }),
            r.server_attributes.spec_structure() == self.server_attributes.spec_structure().push(
                (path@, attribute@),
            ),
            r.server_attributes.spec_module() == self.server_attributes.spec_module(),
    {
        let mut b = self;
        b.server_attributes.push_struct(path, attribute);
        b
    }

    /// Add an attribute above matching generated client modules.
    pub fn client_mod_attribute(self, path: &str, attribute: &str) -> (r: Builder)
        ensures
            r == (Builder { client_attributes: r.client_attributes, ..self }),
            r.client_attributes.spec_module() == self.client_attributes.spec_module().push(
                (path@, attribute@),
            ),
            r.client_attributes.spec_structure() == self.client_attributes.spec_structure(),
    {
        let mut b = self;
        b.client_attributes.push_mod(path, attribute);
        b
    }

    /// Add an attribute above matching generated client structs.
    pub fn client_attribute(self, path: &str, attribute: &str) -> (r: Builder)
        ensures
            r == (Builder { client_attributes: r.client_attributes, ..self }),
            r.client_attributes.spec_structure() == self.client_attributes.spec_structure().push(
                (path@, attribute@),
            ),
            r.client_attributes.spec_module() == self.client_attributes.spec_module(),
    {
        let mut b = self;
        b.client_attributes.push_struct(path, attribute);
        b
    }

    /// Where message types live, relative to the generated modules.
    pub fn proto_path(self, proto_path: &str) -> (r: Builder)
        ensures
            r == (Builder { proto_path: r.proto_path, ..self }),
            r.proto_path@ == proto_path@,
    {
        Builder { proto_path: proto_path.to_owned(), ..self }
    }

    /// Pass one more argument to the IDL compiler.
    pub fn protoc_arg(self, arg: &str) -> (r: Builder)
        ensures
            r == (Builder { protoc_args: r.protoc_args, ..self }),
            r.protoc_args@.len() == self.protoc_args@.len() + 1,
            r.protoc_args@.drop_last() == self.protoc_args@,
            r.protoc_args@.last()@ == arg@,
    {
        let mut b = self;
        b.protoc_args.push(arg.to_owned());
        b
    }

    /// Leave the package segment out of generated paths.
    pub fn disable_package_emission(self) -> (r: Builder)
        ensures
            r == (Builder { emit_package: false, ..self }),
    {
        Builder { emit_package: false, ..self }
    }

    /// Compile the well-known types along with everything else.
    pub fn compile_well_known_types(self, compile_well_known_types: bool) -> (r: Builder)
        ensures
            r == (Builder { compile_well_known_types: compile_well_known_types, ..self }),
    {
        Builder { compile_well_known_types: compile_well_known_types, ..self }
    }
}

/// The configuration a run starts from: both sides built, the package
/// emitted, types under `super`, and formatting on.
pub fn configure() -> (r: Builder)
    ensures
        r.build_client == true,
        r.build_server == true,
        r.file_descriptor_set_path is None,
        r.extern_path@ =~= Seq::<(String, String)>::empty(),
        r.field_attributes@ =~= Seq::<(String, String)>::empty(),
        r.type_attributes@ =~= Seq::<(String, String)>::empty(),
        r.server_attributes.spec_module() =~= Seq::<(Seq<char>, Seq<char>)>::empty(),
        r.server_attributes.spec_structure() =~= Seq::<(Seq<char>, Seq<char>)>::empty(),
        r.client_attributes.spec_module() =~= Seq::<(Seq<char>, Seq<char>)>::empty(),
        r.client_attributes.spec_structure() =~= Seq::<(Seq<char>, Seq<char>)>::empty(),
        r.proto_path@ == "super"@,
        r.emit_package == true,
        r.compile_well_known_types == false,
        r.protoc_args@ =~= Seq::<String>::empty(),
        r.out_dir is None,
        r.format == true,
{
    Builder {
        build_client: true,
        build_server: true,
        file_descriptor_set_path: None,
        extern_path: Vec::new(),
        field_attributes: Vec::new(),
        type_attributes: Vec::new(),
        server_attributes: Attributes::default(),
        client_attributes: Attributes::default(),
        proto_path: ("super").to_owned(),
        emit_package: true,
        compile_well_known_types: false,
        protoc_args: Vec::new(),
        out_dir: None,
        format: true,
    }
}

} // verus!
