//! Tool descriptions and the execution context handed to tools.

use vstd::prelude::*;

verus! {

/// A callable tool, as advertised to the generation backend.
///
/// The input schema is a JSON-schema-shaped object, carried as raw JSON
/// text: the engine hands it on without looking inside.
#[derive(Debug, Default)]
pub struct ToolSpec {
    /// The name, unique within one turn's combined tool set.
    pub name: String,
    /// An optional human-facing name.
    pub display_name: Option<String>,
    /// An optional description shown to the model.
    pub description: Option<String>,
    /// The JSON schema of the tool's input, as raw JSON text.
    pub input_schema: String,
}

/// Deep view of [`ToolSpec`].
#[verifier::ext_equal]
pub struct ToolSpecView {
    pub name: Seq<char>,
    pub display_name: Option<Seq<char>>,
    pub description: Option<Seq<char>>,
    pub input_schema: Seq<char>,
}

impl DeepView for ToolSpec {
    type V = ToolSpecView;

    open spec fn deep_view(&self) -> ToolSpecView {
        ToolSpecView {
            name: self.name.view(),
            display_name: self.display_name.deep_view(),
            description: self.description.deep_view(),
            input_schema: self.input_schema.view(),
        }
    }
}

impl Clone for ToolSpec {
    /// A copy with the same view.
    fn clone(&self) -> (res: Self)
        ensures
            res.deep_view() == self.deep_view(),
    {
        ToolSpec {
            name: self.name.clone(),
            display_name: self.display_name.clone(),
            description: self.description.clone(),
            input_schema: self.input_schema.clone(),
        }
    }
}

/// A copy of a tool catalog with the same view.
pub fn clone_tool_specs(v: &Vec<ToolSpec>) -> (res: Vec<ToolSpec>)
    ensures
        res.deep_view() == v.deep_view(),
{
    let res = v.clone();
    proof {
        assert forall|i: int| 0 <= i < res.deep_view().len() implies res.deep_view()[i]
            == v.deep_view()[i] by {
            assert(cloned::<ToolSpec>(v@[i], res@[i]));
        }
        assert(res.deep_view() =~= v.deep_view());
    }
    res
}

/// The context handed to a tool when it is invoked.
pub struct ToolContext;

} // verus!
