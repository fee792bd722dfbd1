//! The React server components transform unit and its ownership-swap
//! rewrite protocol.

use crate::context::{Comments, TransformContext};
use crate::error::TransformError;
use crate::file_name::{file_name_of, spec_file_name_of, FileName};
use crate::fs_path::FileSystemPathRef;
use crate::program::{Program, ProgramSlot};
use vstd::prelude::*;

verus! {

/// Explicit options handed to the visitor factory.
#[derive(Debug, Clone, Copy, PartialEq, Eq, Structural)]
pub struct Options {
    /// Whether the module being rewritten belongs to the server layer.
    pub is_react_server_layer: bool,
}

/// Configuration value for the visitor factory. The factory may apply
/// different default behavior when no explicit options are given, so the
/// two cases are distinct values, not an optional field.
#[derive(Debug, Clone, Copy, PartialEq, Eq, Structural)]
pub enum ServerComponentsConfig {
    /// Let the factory fall back to its own defaults.
    UseDefaults,
    /// Explicit options provided by the transform unit.
    WithOptions(Options),
}

/// The React server components transform unit.
///
/// Immutable after construction and without internal mutable state, so one
/// value is safe to reuse across many modules and across concurrent
/// invocations on different modules.
#[derive(Debug, Clone, PartialEq, Eq)]
pub struct NextJsReactServerComponents {
    /// Whether modules rewritten by this unit sit on the server layer.
    pub is_react_server_layer: bool,
    /// Optional reference to the application root directory.
    pub app_dir: Option<FileSystemPathRef>,
}

impl NextJsReactServerComponents {
    /// Constructs a transform unit from the layer flag and the optional
    /// root-directory reference.
    pub fn new(is_react_server_layer: bool, app_dir: Option<FileSystemPathRef>) -> (r: Self)
        ensures
            r == (NextJsReactServerComponents { is_react_server_layer, app_dir }),
    {
        Self { is_react_server_layer, app_dir }
    }

    /// Whether this unit's directory resolution step succeeds: trivially
    /// when no directory is configured, otherwise exactly when the
    /// reference is resolvable.
    pub open spec fn spec_dir_resolves(&self) -> bool {
        match self.app_dir {
            Option::None => true,
            Option::Some(d) => d.spec_resolves(),
        }
    }

    /// The concrete directory path handed to the visitor factory, assuming
    /// resolution succeeds.
    pub open spec fn spec_resolved_dir(&self) -> Option<String>
        recommends
            self.spec_dir_resolves(),
    {
        match self.app_dir {
            Option::None => Option::None,
            Option::Some(d) => Option::Some(d->0),
        }
    }

    /// The configuration value this unit passes to the visitor factory:
    /// always explicit options carrying the unit's layer flag.
    pub open spec fn spec_visitor_config(&self) -> ServerComponentsConfig {
        ServerComponentsConfig::WithOptions(Options { is_react_server_layer: self.is_react_server_layer })
    }

    /// The exact argument tuple this unit hands to the visitor factory for
    /// a given context and tree: the derived file identity, the explicit
    /// options, the comment-table handle, the resolved directory path, and
    /// the tree taken out of the slot.
    pub open spec fn spec_factory_args(&self, ctx: TransformContext, tree: Program) -> (
        FileName,
        ServerComponentsConfig,
        Comments,
        Option<String>,
        Program,
    )
        recommends
            self.spec_dir_resolves(),
    {
        (
            spec_file_name_of(ctx.file_path_str),
            self.spec_visitor_config(),
            ctx.comments,
            self.spec_resolved_dir(),
            tree,
        )
    }

    /// Rewrites one module tree in place through the externally supplied
    /// visitor factory `server_components`.
    ///
    /// The injected `server_components` capability stands for the external
    /// factory together with the single application of the one-shot
    /// visitor it returns: since that visitor is consumed exactly once,
    /// the pair amounts to one value-in/value-out call on the tree.
    ///
    /// The ownership-swap protocol: the tree is moved out of the slot,
    /// which holds the placeholder while the rewrite is in flight; on
    /// success the visitor's output is written back, so the slot moves
    /// `Populated -> Placeholder -> Populated`. When directory resolution
    /// fails, the error propagates at once and the slot stays at the
    /// placeholder — the pipeline must treat the module's output as
    /// unusable rather than accept the dummy tree. No other transitions
    /// are reachable.
    pub fn transform<F>(
        &self,
        server_components: F,
        program: &mut ProgramSlot,
        ctx: &TransformContext,
    ) -> (r: Result<(), TransformError>) where
        F: FnOnce(FileName, ServerComponentsConfig, Comments, Option<String>, Program) -> Program,

        requires
            *old(program) is Populated,
            self.spec_dir_resolves() ==> call_requires(
                server_components,
                self.spec_factory_args(*ctx, (*old(program))->0),
            ),
        ensures
            r is Ok <==> self.spec_dir_resolves(),
            !self.spec_dir_resolves() ==> r == Err::<(), TransformError>(
                TransformError::DirectoryResolution,
            ) && *final(program) is Placeholder,
            r is Ok ==> exists|t: Program|
                {
                    &&& #[trigger] call_ensures(
                        server_components,
                        self.spec_factory_args(*ctx, (*old(program))->0),
                        t,
                    )
                    &&& *final(program) == ProgramSlot::Populated(t)
                },
    {
        let p = program.take();
        let file_name = file_name_of(&ctx.file_path_str);
        let config = ServerComponentsConfig::WithOptions(Options {
            is_react_server_layer: self.is_react_server_layer,
        });
        let app_dir: Option<String> = match &self.app_dir {
            None => None,
            Some(dir) => match dir.resolve() {
                Ok(path) => Some(path),
                Err(e) => {
                    return Err(e);
                },
            },
        };
        let rewritten = server_components(file_name, config, ctx.comments, app_dir, p);
        *program = ProgramSlot::Populated(rewritten);
        Ok(())
    }
}

} // verus!
