use vstd::prelude::*;

verus! {

/// The files that a model settings file names.
#[derive(Debug, Clone)]
pub struct FileReferences {
    pub moc: String,
    pub textures: Vec<String>,
    pub physics: Option<String>,
    pub display_info: Option<String>,
}

/// A model settings file.
#[derive(Debug, Clone)]
pub struct Model3 {
    pub version: u32,
    pub file_references: FileReferences,
}

/// The display entry of a parameter.
#[derive(Debug, Clone)]
pub struct Parameter {
    pub id: String,
    pub group_id: String,
    pub name: String,
}

/// The display entry of a parameter group.
#[derive(Debug, Clone)]
pub struct ParameterGroup {
    pub id: String,
    pub group_id: String,
    pub name: String,
}

/// An identifier with a display name.
#[derive(Debug, Clone)]
pub struct NamedEntity {
    pub id: String,
    pub name: String,
}

/// A display information file.
#[derive(Debug, Clone)]
pub struct DisplayInfo {
    pub version: u32,
    pub parameters: Vec<Parameter>,
    pub parameter_groups: Vec<ParameterGroup>,
    pub parts: Vec<NamedEntity>,
}

/// What a physics input or output is attached to.
#[derive(Debug, Clone, Copy, Eq, PartialEq, Structural)]
pub enum TargetType {
    Parameter,
}

/// A physics input or output: the kind of object and its identifier.
#[derive(Debug, Clone)]
pub struct PhysicsTarget {
    pub target: TargetType,
    pub id: String,
}

/// Which component of the pendulum an input drives.
#[derive(Debug, Clone, Copy, Eq, PartialEq, Structural)]
pub enum PhysicsType {
    X,
    Angle,
}

} // verus!
