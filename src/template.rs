use vstd::prelude::*;
use crate::context::Context;
use crate::lexer::Element;

verus! {

/// The text that a sequence of pieces renders to: the pieces in order.
pub open spec fn concat(parts: Seq<String>) -> Seq<char>
    decreases parts.len(),
{
    if parts.len() == 0 {
        Seq::empty()
    } else {
        concat(parts.drop_last()) + parts.last()@
    }
}

/// Whether any element of the sequence is a tag.
pub open spec fn has_tag(elements: Seq<Element>) -> bool {
    exists|i: int| 0 <= i < elements.len() && elements[i] is Tag
}

/// A compiled template: the raw text pieces of its body, in order.
#[derive(Debug)]
pub struct Template {
    pub parts: Vec<String>,
}

impl Template {
    /// Whether this template is the compiled form of `elements`: one piece
    /// for each element, each element the raw text of its piece.
    pub open spec fn compiled_from(self, elements: Seq<Element>) -> bool {
        &&& self.parts@.len() == elements.len()
        &&& forall|i: int| 0 <= i < elements.len() ==> elements[i] == Element::Raw(self.parts@[i])
    }

    /// The text this template renders to.
    pub open spec fn rendered(self) -> Seq<char> {
        concat(self.parts@)
    }

    pub fn new(parts: Vec<String>) -> (r: Template)
        ensures
            r.parts == parts,
    {
        Template { parts }
    }

    /// Renders the template: its pieces joined. The context is left as it was.
    pub fn render(&self, context: &mut Context) -> (r: Option<String>)
        ensures
            r is Some,
            r->Some_0@ == self.rendered(),
            *final(context) == *old(context),
    {
        let mut out = String::new();
        let mut i: usize = 0;
        while i < self.parts.len()
            invariant
                i <= self.parts@.len(),
                out@ == concat(self.parts@.take(i as int)),
            decreases self.parts@.len() - i,
        {
            assert(self.parts@.take(i + 1).drop_last() =~= self.parts@.take(i as int));
            out.append(self.parts[i].as_str());
            i = i + 1;
        }
        assert(self.parts@.take(i as int) =~= self.parts@);
        Some(out)
    }
}

/// Compiles a body into a template. Raw text becomes a piece of the
/// template; a tag is not known to this compiler and fails it with a message
/// that names the tag.
pub fn parse(elements: &Vec<Element>) -> (r: Result<Template, String>)
    ensures
        r is Ok <==> !has_tag(elements@),
        r matches Ok(t) ==> t.compiled_from(elements@),
{
    let mut parts: Vec<String> = Vec::new();
    let mut i: usize = 0;
    while i < elements.len()
        invariant
            i <= elements@.len(),
            parts@.len() == i,
            forall|j: int| 0 <= j < i ==> elements@[j] == Element::Raw(parts@[j]),
        decreases elements@.len() - i,
    {
        match &elements[i] {
            Element::Raw(text) => {
                parts.push(text.clone());
            },
            Element::Tag(_, source) => {
                let mut message = String::new();
                message.append("unknown tag: ");
                message.append(source.as_str());
                return Err(message);
            },
        }
        i = i + 1;
    }
    Ok(Template { parts })
}

} // verus!
