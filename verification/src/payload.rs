//! Configuration payloads handed to the language server.
//!
//! The payloads are plain structured values; the host serializes them into
//! the JSON documents the server expects. Schema documents produced by the
//! host's settings store and action registry are embedded opaquely, as their
//! serialized text.

use vstd::prelude::*;

use crate::paths::{schema_file_match, spec_render_rel, AbsPath, RelPath};

verus! {

/// The static options handed to the server when it starts: it should act as
/// the document formatter.
pub struct InitializationOptions {
    pub provide_formatter: bool,
}

/// A pairing of file-match patterns with the serialized schema document that
/// files matching one of the patterns are validated against.
pub struct SchemaBinding {
    pub file_match: Vec<String>,
    pub schema: String,
}

/// The per-workspace configuration: formatting stays enabled, and an ordered
/// list of schema bindings (first match wins in the consuming server).
pub struct WorkspaceConfiguration {
    pub format_enable: bool,
    pub schemas: Vec<SchemaBinding>,
}

/// The abstract form of a schema binding.
#[verifier::ext_equal]
pub ghost struct SchemaBindingModel {
    pub file_match: Seq<Seq<char>>,
    pub schema: Seq<char>,
}

/// The abstract form of a workspace configuration.
#[verifier::ext_equal]
pub ghost struct WorkspaceConfigurationModel {
    pub format_enable: bool,
    pub schemas: Seq<SchemaBindingModel>,
}

impl View for SchemaBinding {
    type V = SchemaBindingModel;

    open spec fn view(&self) -> SchemaBindingModel {
        SchemaBindingModel {
            file_match: self.file_match@.map(|i: int, s: String| s@),
            schema: self.schema@,
        }
    }
}

impl View for WorkspaceConfiguration {
    type V = WorkspaceConfigurationModel;

    open spec fn view(&self) -> WorkspaceConfigurationModel {
        WorkspaceConfigurationModel {
            format_enable: self.format_enable,
            schemas: self.schemas@.map(|i: int, b: SchemaBinding| b@),
        }
    }
}

/// The static initialization options: formatting is provided. The result is
/// the same on every call.
pub fn initialization_options() -> (r: InitializationOptions)
    ensures
        r.provide_formatter == true,
{
    InitializationOptions { provide_formatter: true }
}

/// The file-match patterns of the settings schema binding: the relativized
/// primary settings path, then the local-settings relative path.
pub open spec fn spec_settings_file_match(
    settings_path: Seq<Seq<char>>,
    local_settings_relative: Seq<Seq<char>>,
) -> Seq<Seq<char>> {
    seq![
        spec_render_rel(settings_path.subrange(settings_path.len() - 2, settings_path.len() as int)),
        spec_render_rel(local_settings_relative),
    ]
}

/// The file-match patterns of the keymap schema binding: the relativized
/// keymap path alone.
pub open spec fn spec_keymap_file_match(keymap_path: Seq<Seq<char>>) -> Seq<Seq<char>> {
    seq![spec_render_rel(keymap_path.subrange(keymap_path.len() - 2, keymap_path.len() as int))]
}

/// The full abstract workspace configuration for the given well-known paths
/// and schema documents.
pub open spec fn spec_workspace_configuration(
    settings_path: Seq<Seq<char>>,
    local_settings_relative: Seq<Seq<char>>,
    keymap_path: Seq<Seq<char>>,
    settings_schema: Seq<char>,
    keymap_schema: Seq<char>,
) -> WorkspaceConfigurationModel {
    WorkspaceConfigurationModel {
        format_enable: true,
        schemas: seq![
            SchemaBindingModel {
                file_match: spec_settings_file_match(settings_path, local_settings_relative),
                schema: settings_schema,
            },
            SchemaBindingModel {
                file_match: spec_keymap_file_match(keymap_path),
                schema: keymap_schema,
            },
        ],
    }
}

/// The per-workspace configuration payload.
///
/// `settings_path` and `keymap_path` are the host's well-known absolute paths
/// of the primary settings file and the keymap file; `local_settings_relative`
/// is the host's relative path for per-project settings files. The schema
/// documents are read fresh from the host on every call and passed in as
/// their serialized text.
///
/// The result always holds exactly two schema bindings, in fixed order: the
/// settings binding first, the keymap binding second, however many languages
/// or actions the host currently knows.
pub fn workspace_configuration(
    settings_path: &AbsPath,
    local_settings_relative: &RelPath,
    keymap_path: &AbsPath,
    settings_schema: String,
    keymap_schema: String,
) -> (r: WorkspaceConfiguration)
    requires
        settings_path@.len() >= 2,
        keymap_path@.len() >= 2,
    ensures
        r@ == spec_workspace_configuration(
            settings_path@,
            local_settings_relative@,
            keymap_path@,
            settings_schema@,
            keymap_schema@,
        ),
        r@.format_enable == true,
        r@.schemas.len() == 2,
{
    let settings_match = schema_file_match(settings_path);
    let keymap_match = schema_file_match(keymap_path);

    let mut settings_file_match: Vec<String> = Vec::new();
    settings_file_match.push(settings_match.render());
    settings_file_match.push(local_settings_relative.render());

    let mut keymap_file_match: Vec<String> = Vec::new();
    keymap_file_match.push(keymap_match.render());

    let mut schemas: Vec<SchemaBinding> = Vec::new();
    schemas.push(SchemaBinding { file_match: settings_file_match, schema: settings_schema });
    schemas.push(SchemaBinding { file_match: keymap_file_match, schema: keymap_schema });

    let r = WorkspaceConfiguration { format_enable: true, schemas };
    proof {
        let expected = spec_workspace_configuration(
            settings_path@,
            local_settings_relative@,
            keymap_path@,
            settings_schema@,
            keymap_schema@,
        );
        assert(r@.schemas[0].file_match =~= expected.schemas[0].file_match);
        assert(r@.schemas[1].file_match =~= expected.schemas[1].file_match);
        assert(r@.schemas =~~= expected.schemas);
        assert(r@ =~~= expected);
    }
    r
}

/// A workspace configuration holds exactly two schema bindings, in fixed
/// order — the settings binding first, the keymap binding second — whatever
/// paths and schema documents the host supplies.
pub proof fn lemma_workspace_configuration_bindings(
    settings_path: Seq<Seq<char>>,
    local_settings_relative: Seq<Seq<char>>,
    keymap_path: Seq<Seq<char>>,
    settings_schema: Seq<char>,
    keymap_schema: Seq<char>,
)
    ensures
        ({
            let c = spec_workspace_configuration(
                settings_path,
                local_settings_relative,
                keymap_path,
                settings_schema,
                keymap_schema,
            );
            &&& c.format_enable == true
            &&& c.schemas.len() == 2
            &&& c.schemas[0].schema == settings_schema
            &&& c.schemas[0].file_match == spec_settings_file_match(
                settings_path,
                local_settings_relative,
            )
            &&& c.schemas[1].schema == keymap_schema
            &&& c.schemas[1].file_match == spec_keymap_file_match(keymap_path)
        }),
{
}

/// The initialization options are constant: any two payloads that meet the
/// builder's contract are the same value.
pub proof fn lemma_initialization_options_constant(
    a: InitializationOptions,
    b: InitializationOptions,
)
    requires
        a.provide_formatter == true,
        b.provide_formatter == true,
    ensures
        a == b,
{
}

} // verus!
