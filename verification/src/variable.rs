//! Variables as the cloud reports them for a workspace.

use vstd::prelude::*;

verus! {

/// What the cloud holds of one variable besides its identifier.
#[derive(Debug, PartialEq, Eq)]
pub struct Attributes {
    /// The name under which configurations refer to the variable.
    pub key: String,
    /// The value; the cloud withholds it for a sensitive variable.
    pub value: Option<String>,
    /// The kind of variable, such as `terraform` or `env`.
    pub category: String,
    /// Whether the value is a secret.
    pub sensitive: bool,
}

/// One variable of a workspace, as fetched. It is never changed afterwards.
#[derive(Debug, PartialEq, Eq)]
pub struct Variable {
    pub id: String,
    pub attributes: Attributes,
}

/// The mathematical value of a `Variable`.
pub struct VariableView {
    pub id: Seq<char>,
    pub key: Seq<char>,
    pub value: Option<Seq<char>>,
    pub category: Seq<char>,
    pub sensitive: bool,
}

impl View for Variable {
    type V = VariableView;

    open spec fn view(&self) -> VariableView {
        VariableView {
            id: self.id@,
            key: self.attributes.key@,
            value: self.attributes.value.deep_view(),
            category: self.attributes.category@,
            sensitive: self.attributes.sensitive,
        }
    }
}

impl DeepView for Variable {
    type V = VariableView;

    open spec fn deep_view(&self) -> VariableView {
        self@
    }
}

impl Clone for Attributes {
    fn clone(&self) -> (copy: Self)
        ensures
            copy.key@ == self.key@,
            copy.value.deep_view() == self.value.deep_view(),
            copy.category@ == self.category@,
            copy.sensitive == self.sensitive,
    {
        let value = match &self.value {
            Some(text) => Some(text.clone()),
            None => None,
        };
        Attributes {
            key: self.key.clone(),
            value,
            category: self.category.clone(),
            sensitive: self.sensitive,
        }
    }
}

impl Clone for Variable {
    fn clone(&self) -> (copy: Self)
        ensures
            copy@ == self@,
    {
        Variable { id: self.id.clone(), attributes: self.attributes.clone() }
    }
}

/// Copies a list of variables, one by one and in order.
pub fn clone_variables(variables: &Vec<Variable>) -> (copy: Vec<Variable>)
    ensures
        copy.deep_view() == variables.deep_view(),
{
    let mut copy: Vec<Variable> = Vec::new();
    let mut i: usize = 0;
    while i < variables.len()
        invariant
            i <= variables.len(),
            copy.len() == i,
            forall|j: int| 0 <= j < i ==> copy[j]@ == variables[j]@,
        decreases variables.len() - i,
    {
        copy.push(variables[i].clone());
        i += 1;
    }
    copy
}

} // verus!
