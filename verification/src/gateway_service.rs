//! The resolvers of the GraphQL gateway: which service call each one makes,
//! and how the status of the answer turns into the resolver's result.

use vstd::prelude::*;
use crate::gateway_error::{user_error_code, user_error_message, UserCustomResponseError};

verus! {

/// The service a resolver calls.
#[derive(Clone, Copy, Debug, PartialEq, Eq, Structural)]
pub enum Service {
    /// The authentication service.
    Auth,
    /// The content builder service.
    Builder,
}

/// The HTTP method of a service call.
#[derive(Clone, Copy, Debug, PartialEq, Eq, Structural)]
pub enum Method {
    Get,
    Post,
    Put,
    Delete,
}

/// A resolver of the gateway that calls a service.
#[derive(Clone, Copy, Debug, PartialEq, Eq, Structural)]
pub enum Resolver {
    GetAllUsers,
    GetUserById,
    GetCategoryById,
    GetFeatureById,
    GetPrototypeById,
    GetTemplateById,
    GetProjectById,
    GetAllProjectsByClientId,
    GetAllProjects,
    GetAllCategories,
    GetAllFeatures,
    GetAllTemplates,
    GetAllTemplatesByCategoriesId,
    Signup,
    CreateUser,
    Login,
    DeleteUser,
    UpdateUserInfo,
    UpdateUserPassword,
    ResetUserPassword,
    ConfirmUserResetPassword,
    DeleteCategory,
    DeleteFeature,
    DeleteTemplate,
    UpdateTemplateFeatures,
    AddTemplateSpecification,
    AddCategory,
    UpdateCategory,
    AddFeature,
    UpdateFeature,
    DeleteFeatureWireframe,
    AddFeatureWireframes,
    AddTemplate,
    UpdateTemplate,
    AddPrototype,
    UpdatePrototype,
    AddProject,
    ChangeProjectState,
    UpdateProject,
    AddProjectProposal,
    AddProjectMvp,
    AddProjectFullBuild,
    AddProjectDesign,
}

/// The service a resolver calls.
pub open spec fn resolver_service(r: Resolver) -> Service {
    match r {
        Resolver::GetAllUsers => Service::Auth,
        Resolver::GetUserById => Service::Auth,
        Resolver::GetCategoryById => Service::Builder,
        Resolver::GetFeatureById => Service::Builder,
        Resolver::GetPrototypeById => Service::Builder,
        Resolver::GetTemplateById => Service::Builder,
        Resolver::GetProjectById => Service::Builder,
        Resolver::GetAllProjectsByClientId => Service::Builder,
        Resolver::GetAllProjects => Service::Builder,
        Resolver::GetAllCategories => Service::Builder,
        Resolver::GetAllFeatures => Service::Builder,
        Resolver::GetAllTemplates => Service::Builder,
        Resolver::GetAllTemplatesByCategoriesId => Service::Builder,
        Resolver::Signup => Service::Auth,
        Resolver::CreateUser => Service::Auth,
        Resolver::Login => Service::Auth,
        Resolver::DeleteUser => Service::Auth,
        Resolver::UpdateUserInfo => Service::Auth,
        Resolver::UpdateUserPassword => Service::Auth,
        Resolver::ResetUserPassword => Service::Auth,
        Resolver::ConfirmUserResetPassword => Service::Auth,
        Resolver::DeleteCategory => Service::Builder,
        Resolver::DeleteFeature => Service::Builder,
        Resolver::DeleteTemplate => Service::Builder,
        Resolver::UpdateTemplateFeatures => Service::Builder,
        Resolver::AddTemplateSpecification => Service::Builder,
        Resolver::AddCategory => Service::Builder,
        Resolver::UpdateCategory => Service::Builder,
        Resolver::AddFeature => Service::Builder,
        Resolver::UpdateFeature => Service::Builder,
        Resolver::DeleteFeatureWireframe => Service::Builder,
        Resolver::AddFeatureWireframes => Service::Builder,
        Resolver::AddTemplate => Service::Builder,
        Resolver::UpdateTemplate => Service::Builder,
        Resolver::AddPrototype => Service::Builder,
        Resolver::UpdatePrototype => Service::Builder,
        Resolver::AddProject => Service::Builder,
        Resolver::ChangeProjectState => Service::Builder,
        Resolver::UpdateProject => Service::Builder,
        Resolver::AddProjectProposal => Service::Builder,
        Resolver::AddProjectMvp => Service::Builder,
        Resolver::AddProjectFullBuild => Service::Builder,
        Resolver::AddProjectDesign => Service::Builder,
    }
}

/// The method of the call a resolver makes.
pub open spec fn resolver_method(r: Resolver) -> Method {
    match r {
        Resolver::GetAllUsers => Method::Get,
        Resolver::GetUserById => Method::Post,
        Resolver::GetCategoryById => Method::Post,
        Resolver::GetFeatureById => Method::Post,
        Resolver::GetPrototypeById => Method::Post,
        Resolver::GetTemplateById => Method::Post,
        Resolver::GetProjectById => Method::Post,
        Resolver::GetAllProjectsByClientId => Method::Post,
        Resolver::GetAllProjects => Method::Get,
        Resolver::GetAllCategories => Method::Get,
        Resolver::GetAllFeatures => Method::Get,
        Resolver::GetAllTemplates => Method::Get,
        Resolver::GetAllTemplatesByCategoriesId => Method::Post,
        Resolver::Signup => Method::Post,
        Resolver::CreateUser => Method::Post,
        Resolver::Login => Method::Post,
        Resolver::DeleteUser => Method::Delete,
        Resolver::UpdateUserInfo => Method::Put,
        Resolver::UpdateUserPassword => Method::Put,
        Resolver::ResetUserPassword => Method::Post,
        Resolver::ConfirmUserResetPassword => Method::Put,
        Resolver::DeleteCategory => Method::Delete,
        Resolver::DeleteFeature => Method::Delete,
        Resolver::DeleteTemplate => Method::Delete,
        Resolver::UpdateTemplateFeatures => Method::Put,
        Resolver::AddTemplateSpecification => Method::Put,
        Resolver::AddCategory => Method::Post,
        Resolver::UpdateCategory => Method::Put,
        Resolver::AddFeature => Method::Post,
        Resolver::UpdateFeature => Method::Put,
        Resolver::DeleteFeatureWireframe => Method::Delete,
        Resolver::AddFeatureWireframes => Method::Post,
        Resolver::AddTemplate => Method::Post,
        Resolver::UpdateTemplate => Method::Put,
        Resolver::AddPrototype => Method::Post,
        Resolver::UpdatePrototype => Method::Put,
        Resolver::AddProject => Method::Post,
        Resolver::ChangeProjectState => Method::Delete,
        Resolver::UpdateProject => Method::Put,
        Resolver::AddProjectProposal => Method::Put,
        Resolver::AddProjectMvp => Method::Put,
        Resolver::AddProjectFullBuild => Method::Put,
        Resolver::AddProjectDesign => Method::Put,
    }
}

/// The path of the call a resolver makes, after the service's address.
pub open spec fn resolver_path(r: Resolver) -> Seq<char> {
    match r {
        Resolver::GetAllUsers => "/api/v1/users/all"@,
        Resolver::GetUserById => "/api/v1/users/get"@,
        Resolver::GetCategoryById => "/api/v1/builder/category/get"@,
        Resolver::GetFeatureById => "/api/v1/builder/feature/get"@,
        Resolver::GetPrototypeById => "/api/v1/builder/prototype/get"@,
        Resolver::GetTemplateById => "/api/v1/builder/template/get"@,
        Resolver::GetProjectById => "/api/v1/builder/project/get"@,
        Resolver::GetAllProjectsByClientId => "/api/v1/builder/project/user/get"@,
        Resolver::GetAllProjects => "/api/v1/builder/project/all"@,
        Resolver::GetAllCategories => "/api/v1/builder/category/all"@,
        Resolver::GetAllFeatures => "/api/v1/builder/feature/all"@,
        Resolver::GetAllTemplates => "/api/v1/builder/template/all"@,
        Resolver::GetAllTemplatesByCategoriesId => "/api/v1/builder/template/categories/all"@,
        Resolver::Signup => "/api/v1/users/auth/signup"@,
        Resolver::CreateUser => "/api/v1/users/auth/signup"@,
        Resolver::Login => "/api/v1/users/auth/login"@,
        Resolver::DeleteUser => "/api/v1/users/delete"@,
        Resolver::UpdateUserInfo => "/api/v1/users/update/info"@,
        Resolver::UpdateUserPassword => "/api/v1/users/update/password"@,
        Resolver::ResetUserPassword => "/api/v1/users/auth/reset"@,
        Resolver::ConfirmUserResetPassword => "/api/v1/users/auth/reset/confirm"@,
        Resolver::DeleteCategory => "/api/v1/builder/category/delete"@,
        Resolver::DeleteFeature => "/api/v1/builder/feature/delete"@,
        Resolver::DeleteTemplate => "/api/v1/builder/template/delete"@,
        Resolver::UpdateTemplateFeatures => "/api/v1/builder/template/feature/update"@,
        Resolver::AddTemplateSpecification => "/api/v1/builder/template/specification/add"@,
        Resolver::AddCategory => "/api/v1/builder/category/create"@,
        Resolver::UpdateCategory => "/api/v1/builder/category/update"@,
        Resolver::AddFeature => "/api/v1/builder/feature/create"@,
        Resolver::UpdateFeature => "/api/v1/builder/feature/update"@,
        Resolver::DeleteFeatureWireframe => "/api/v1/builder/feature/wireframe/delete"@,
        Resolver::AddFeatureWireframes => "/api/v1/builder/feature/wireframe/add"@,
        Resolver::AddTemplate => "/api/v1/builder/template/create"@,
        Resolver::UpdateTemplate => "/api/v1/builder/template/update"@,
        Resolver::AddPrototype => "/api/v1/builder/prototype/add"@,
        Resolver::UpdatePrototype => "/api/v1/builder/prototype/update"@,
        Resolver::AddProject => "/api/v1/builder/project/add"@,
        Resolver::ChangeProjectState => "/api/v1/builder/project/state"@,
        Resolver::UpdateProject => "/api/v1/builder/project/update"@,
        Resolver::AddProjectProposal => "/api/v1/builder/project/proposal/add"@,
        Resolver::AddProjectMvp => "/api/v1/builder/project/mvp/add"@,
        Resolver::AddProjectFullBuild => "/api/v1/builder/project/full_build/add"@,
        Resolver::AddProjectDesign => "/api/v1/builder/project/design/add"@,
    }
}

/// Whether a resolver passes the caller's token on.
pub open spec fn resolver_sends_token(r: Resolver) -> bool {
    match r {
        Resolver::GetAllUsers => true,
        Resolver::GetUserById => true,
        Resolver::GetCategoryById => true,
        Resolver::GetFeatureById => true,
        Resolver::GetPrototypeById => true,
        Resolver::GetTemplateById => true,
        Resolver::GetProjectById => true,
        Resolver::GetAllProjectsByClientId => true,
        Resolver::GetAllProjects => true,
        Resolver::GetAllCategories => true,
        Resolver::GetAllFeatures => true,
        Resolver::GetAllTemplates => true,
        Resolver::GetAllTemplatesByCategoriesId => true,
        Resolver::Signup => false,
        Resolver::CreateUser => false,
        Resolver::Login => false,
        Resolver::DeleteUser => true,
        Resolver::UpdateUserInfo => true,
        Resolver::UpdateUserPassword => true,
        Resolver::ResetUserPassword => false,
        Resolver::ConfirmUserResetPassword => false,
        Resolver::DeleteCategory => true,
        Resolver::DeleteFeature => true,
        Resolver::DeleteTemplate => true,
        Resolver::UpdateTemplateFeatures => true,
        Resolver::AddTemplateSpecification => true,
        Resolver::AddCategory => true,
        Resolver::UpdateCategory => true,
        Resolver::AddFeature => true,
        Resolver::UpdateFeature => true,
        Resolver::DeleteFeatureWireframe => true,
        Resolver::AddFeatureWireframes => true,
        Resolver::AddTemplate => true,
        Resolver::UpdateTemplate => true,
        Resolver::AddPrototype => true,
        Resolver::UpdatePrototype => true,
        Resolver::AddProject => true,
        Resolver::ChangeProjectState => true,
        Resolver::UpdateProject => true,
        Resolver::AddProjectProposal => true,
        Resolver::AddProjectMvp => true,
        Resolver::AddProjectFullBuild => true,
        Resolver::AddProjectDesign => true,
    }
}

/// The `info` a resolver adds when the service answers "not found".
pub open spec fn resolver_not_found_info(r: Resolver) -> Seq<char> {
    match r {
        Resolver::GetAllUsers => "Users Not Found !"@,
        Resolver::GetUserById => "User Not Found !"@,
        Resolver::GetCategoryById => "Category Not Found !"@,
        Resolver::GetFeatureById => "Feature Not Found!"@,
        Resolver::GetPrototypeById => "ProtoType Dosent Existe To Delete !"@,
        Resolver::GetTemplateById => "Template Not Found!"@,
        Resolver::GetProjectById => "Project Not Found !"@,
        Resolver::GetAllProjectsByClientId => " User Not Found !"@,
        Resolver::GetAllProjects => " Projects Not Found !"@,
        Resolver::GetAllCategories => "Categories not Found !"@,
        Resolver::GetAllFeatures => "Features not Found!"@,
        Resolver::GetAllTemplates => "Templates not Found!"@,
        Resolver::GetAllTemplatesByCategoriesId => "Templates Not Found!"@,
        Resolver::Signup => "Bad Credentials Or User Dosent Existe !"@,
        Resolver::CreateUser => "Bad Credentials Or User Dosent Existe !"@,
        Resolver::Login => "Bad Credentials !"@,
        Resolver::DeleteUser => "User Not Found !"@,
        Resolver::UpdateUserInfo => "User Not Found !"@,
        Resolver::UpdateUserPassword => "User Not Found !"@,
        Resolver::ResetUserPassword => "User Not Found !"@,
        Resolver::ConfirmUserResetPassword => "User Not Found !"@,
        Resolver::DeleteCategory => "Category Not Found !"@,
        Resolver::DeleteFeature => "Feature Not Found !"@,
        Resolver::DeleteTemplate => "Template Not Found !"@,
        Resolver::UpdateTemplateFeatures => "Template Not Found !"@,
        Resolver::AddTemplateSpecification => "Template Not Found !"@,
        Resolver::AddCategory => "Category Not Found !"@,
        Resolver::UpdateCategory => "Category Not Found!"@,
        Resolver::AddFeature => "Feature Not Found !"@,
        Resolver::UpdateFeature => "Feature Not Found !"@,
        Resolver::DeleteFeatureWireframe => "Feature Wireframe Not Found !"@,
        Resolver::AddFeatureWireframes => "Feature Not Found !"@,
        Resolver::AddTemplate => "Template Not Found !"@,
        Resolver::UpdateTemplate => "Template Not Found !"@,
        Resolver::AddPrototype => "PrototType Not Found !"@,
        Resolver::UpdatePrototype => "ProtoType Not Found !"@,
        Resolver::AddProject => "Project Not Found !"@,
        Resolver::ChangeProjectState => "Project Not Found!"@,
        Resolver::UpdateProject => "Project Not Found!"@,
        Resolver::AddProjectProposal => "Project Not Found!"@,
        Resolver::AddProjectMvp => "Project Not Found!"@,
        Resolver::AddProjectFullBuild => "Project Not Found!"@,
        Resolver::AddProjectDesign => "Project Not Found!"@,
    }
}

/// The `info` a resolver adds when the service answers "forbidden", for the resolvers that tell that answer apart.
pub open spec fn resolver_forbidden_info(r: Resolver) -> Option<Seq<char>> {
    match r {
        Resolver::GetAllUsers => Some("User not ALLowed or Bad Authorization Header !"@),
        Resolver::GetUserById => Some("User not ALLowed or Bad Authorization Header !"@),
        Resolver::GetCategoryById => Some(" Bad Authorization Header !"@),
        Resolver::GetFeatureById => Some(" Bad Authorization Header !"@),
        Resolver::GetPrototypeById => Some("Bad Authorization Header !"@),
        Resolver::GetTemplateById => Some(" Bad Authorization Header !"@),
        Resolver::GetProjectById => Some("Bad Authorization Header !"@),
        Resolver::GetAllProjectsByClientId => Some("Bad Authorization Header !"@),
        Resolver::GetAllProjects => Some("Bad Authorization Header !"@),
        Resolver::GetAllCategories => Some("Bad Authorization Header !"@),
        Resolver::GetAllFeatures => Some("Bad Authorization Header !"@),
        Resolver::GetAllTemplates => Some("Bad Authorization Header !"@),
        Resolver::GetAllTemplatesByCategoriesId => Some("Bad Authorization Header !"@),
        Resolver::Signup => None,
        Resolver::CreateUser => None,
        Resolver::Login => None,
        Resolver::DeleteUser => Some("User Not ALLowed  !"@),
        Resolver::UpdateUserInfo => Some("User Not ALLowed  !"@),
        Resolver::UpdateUserPassword => Some("User Not ALLowed  !"@),
        Resolver::ResetUserPassword => Some("User Not ALLowed!"@),
        Resolver::ConfirmUserResetPassword => Some("User Not ALLowed !"@),
        Resolver::DeleteCategory => Some("Bad Authorization Header !"@),
        Resolver::DeleteFeature => Some("Bad Authorization Header !"@),
        Resolver::DeleteTemplate => Some("Bad Authorization Header !"@),
        Resolver::UpdateTemplateFeatures => Some("Bad Authorization Header !"@),
        Resolver::AddTemplateSpecification => Some("Bad Authorization Header !"@),
        Resolver::AddCategory => Some("Bad Authorization Header !"@),
        Resolver::UpdateCategory => Some("Bad Authorization Header !"@),
        Resolver::AddFeature => Some("Bad Authorization Header !"@),
        Resolver::UpdateFeature => Some("Bad Authorization Header !"@),
        Resolver::DeleteFeatureWireframe => Some("Bad Authorization Header !"@),
        Resolver::AddFeatureWireframes => Some("Bad Authorization Header !"@),
        Resolver::AddTemplate => Some("Bad Authorization Header !"@),
        Resolver::UpdateTemplate => Some("Bad Authorization Header !"@),
        Resolver::AddPrototype => Some("Bad Authorization Header !"@),
        Resolver::UpdatePrototype => Some("Bad Authorization Header !"@),
        Resolver::AddProject => Some("Bad Authorization Header !"@),
        Resolver::ChangeProjectState => Some("Bad Authorization Header !"@),
        Resolver::UpdateProject => Some("Bad Authorization Header !"@),
        Resolver::AddProjectProposal => Some("Bad Authorization Header !"@),
        Resolver::AddProjectMvp => Some("Bad Authorization Header !"@),
        Resolver::AddProjectFullBuild => Some("Bad Authorization Header !"@),
        Resolver::AddProjectDesign => Some("Bad Authorization Header !"@),
    }
}

/// The `info` a resolver adds when the service answers "conflict", for the resolvers that tell that answer apart.
pub open spec fn resolver_conflict_info(r: Resolver) -> Option<Seq<char>> {
    match r {
        Resolver::GetAllUsers => None,
        Resolver::GetUserById => None,
        Resolver::GetCategoryById => None,
        Resolver::GetFeatureById => None,
        Resolver::GetPrototypeById => None,
        Resolver::GetTemplateById => None,
        Resolver::GetProjectById => None,
        Resolver::GetAllProjectsByClientId => None,
        Resolver::GetAllProjects => None,
        Resolver::GetAllCategories => None,
        Resolver::GetAllFeatures => None,
        Resolver::GetAllTemplates => None,
        Resolver::GetAllTemplatesByCategoriesId => None,
        Resolver::Signup => Some("User Already Exist !"@),
        Resolver::CreateUser => Some("User Already Exist !"@),
        Resolver::Login => None,
        Resolver::DeleteUser => None,
        Resolver::UpdateUserInfo => None,
        Resolver::UpdateUserPassword => None,
        Resolver::ResetUserPassword => None,
        Resolver::ConfirmUserResetPassword => None,
        Resolver::DeleteCategory => None,
        Resolver::DeleteFeature => None,
        Resolver::DeleteTemplate => None,
        Resolver::UpdateTemplateFeatures => None,
        Resolver::AddTemplateSpecification => None,
        Resolver::AddCategory => None,
        Resolver::UpdateCategory => None,
        Resolver::AddFeature => None,
        Resolver::UpdateFeature => None,
        Resolver::DeleteFeatureWireframe => None,
        Resolver::AddFeatureWireframes => None,
        Resolver::AddTemplate => None,
        Resolver::UpdateTemplate => None,
        Resolver::AddPrototype => None,
        Resolver::UpdatePrototype => None,
        Resolver::AddProject => None,
        Resolver::ChangeProjectState => None,
        Resolver::UpdateProject => None,
        Resolver::AddProjectProposal => None,
        Resolver::AddProjectMvp => None,
        Resolver::AddProjectFullBuild => None,
        Resolver::AddProjectDesign => None,
    }
}

impl Resolver {
    /// The service the resolver calls.
    pub fn service(&self) -> (res: Service)
        ensures
            res == resolver_service(*self),
    {
        match self {
            Resolver::GetAllUsers => Service::Auth,
            Resolver::GetUserById => Service::Auth,
            Resolver::GetCategoryById => Service::Builder,
            Resolver::GetFeatureById => Service::Builder,
            Resolver::GetPrototypeById => Service::Builder,
            Resolver::GetTemplateById => Service::Builder,
            Resolver::GetProjectById => Service::Builder,
            Resolver::GetAllProjectsByClientId => Service::Builder,
            Resolver::GetAllProjects => Service::Builder,
            Resolver::GetAllCategories => Service::Builder,
            Resolver::GetAllFeatures => Service::Builder,
            Resolver::GetAllTemplates => Service::Builder,
            Resolver::GetAllTemplatesByCategoriesId => Service::Builder,
            Resolver::Signup => Service::Auth,
            Resolver::CreateUser => Service::Auth,
            Resolver::Login => Service::Auth,
            Resolver::DeleteUser => Service::Auth,
            Resolver::UpdateUserInfo => Service::Auth,
            Resolver::UpdateUserPassword => Service::Auth,
            Resolver::ResetUserPassword => Service::Auth,
            Resolver::ConfirmUserResetPassword => Service::Auth,
            Resolver::DeleteCategory => Service::Builder,
            Resolver::DeleteFeature => Service::Builder,
            Resolver::DeleteTemplate => Service::Builder,
            Resolver::UpdateTemplateFeatures => Service::Builder,
            Resolver::AddTemplateSpecification => Service::Builder,
            Resolver::AddCategory => Service::Builder,
            Resolver::UpdateCategory => Service::Builder,
            Resolver::AddFeature => Service::Builder,
            Resolver::UpdateFeature => Service::Builder,
            Resolver::DeleteFeatureWireframe => Service::Builder,
            Resolver::AddFeatureWireframes => Service::Builder,
            Resolver::AddTemplate => Service::Builder,
            Resolver::UpdateTemplate => Service::Builder,
            Resolver::AddPrototype => Service::Builder,
            Resolver::UpdatePrototype => Service::Builder,
            Resolver::AddProject => Service::Builder,
            Resolver::ChangeProjectState => Service::Builder,
            Resolver::UpdateProject => Service::Builder,
            Resolver::AddProjectProposal => Service::Builder,
            Resolver::AddProjectMvp => Service::Builder,
            Resolver::AddProjectFullBuild => Service::Builder,
            Resolver::AddProjectDesign => Service::Builder,
        }
    }

    /// The method of the call the resolver makes.
    pub fn method(&self) -> (res: Method)
        ensures
            res == resolver_method(*self),
    {
        match self {
            Resolver::GetAllUsers => Method::Get,
            Resolver::GetUserById => Method::Post,
            Resolver::GetCategoryById => Method::Post,
            Resolver::GetFeatureById => Method::Post,
            Resolver::GetPrototypeById => Method::Post,
            Resolver::GetTemplateById => Method::Post,
            Resolver::GetProjectById => Method::Post,
            Resolver::GetAllProjectsByClientId => Method::Post,
            Resolver::GetAllProjects => Method::Get,
            Resolver::GetAllCategories => Method::Get,
            Resolver::GetAllFeatures => Method::Get,
            Resolver::GetAllTemplates => Method::Get,
            Resolver::GetAllTemplatesByCategoriesId => Method::Post,
            Resolver::Signup => Method::Post,
            Resolver::CreateUser => Method::Post,
            Resolver::Login => Method::Post,
            Resolver::DeleteUser => Method::Delete,
            Resolver::UpdateUserInfo => Method::Put,
            Resolver::UpdateUserPassword => Method::Put,
            Resolver::ResetUserPassword => Method::Post,
            Resolver::ConfirmUserResetPassword => Method::Put,
            Resolver::DeleteCategory => Method::Delete,
            Resolver::DeleteFeature => Method::Delete,
            Resolver::DeleteTemplate => Method::Delete,
            Resolver::UpdateTemplateFeatures => Method::Put,
            Resolver::AddTemplateSpecification => Method::Put,
            Resolver::AddCategory => Method::Post,
            Resolver::UpdateCategory => Method::Put,
            Resolver::AddFeature => Method::Post,
            Resolver::UpdateFeature => Method::Put,
            Resolver::DeleteFeatureWireframe => Method::Delete,
            Resolver::AddFeatureWireframes => Method::Post,
            Resolver::AddTemplate => Method::Post,
            Resolver::UpdateTemplate => Method::Put,
            Resolver::AddPrototype => Method::Post,
            Resolver::UpdatePrototype => Method::Put,
            Resolver::AddProject => Method::Post,
            Resolver::ChangeProjectState => Method::Delete,
            Resolver::UpdateProject => Method::Put,
            Resolver::AddProjectProposal => Method::Put,
            Resolver::AddProjectMvp => Method::Put,
            Resolver::AddProjectFullBuild => Method::Put,
            Resolver::AddProjectDesign => Method::Put,
        }
    }

    /// The path of the call the resolver makes.
    pub fn path(&self) -> (res: &'static str)
        ensures
            res@ == resolver_path(*self),
    {
        match self {
            Resolver::GetAllUsers => "/api/v1/users/all",
            Resolver::GetUserById => "/api/v1/users/get",
            Resolver::GetCategoryById => "/api/v1/builder/category/get",
            Resolver::GetFeatureById => "/api/v1/builder/feature/get",
            Resolver::GetPrototypeById => "/api/v1/builder/prototype/get",
            Resolver::GetTemplateById => "/api/v1/builder/template/get",
            Resolver::GetProjectById => "/api/v1/builder/project/get",
            Resolver::GetAllProjectsByClientId => "/api/v1/builder/project/user/get",
            Resolver::GetAllProjects => "/api/v1/builder/project/all",
            Resolver::GetAllCategories => "/api/v1/builder/category/all",
            Resolver::GetAllFeatures => "/api/v1/builder/feature/all",
            Resolver::GetAllTemplates => "/api/v1/builder/template/all",
            Resolver::GetAllTemplatesByCategoriesId => "/api/v1/builder/template/categories/all",
            Resolver::Signup => "/api/v1/users/auth/signup",
            Resolver::CreateUser => "/api/v1/users/auth/signup",
            Resolver::Login => "/api/v1/users/auth/login",
            Resolver::DeleteUser => "/api/v1/users/delete",
            Resolver::UpdateUserInfo => "/api/v1/users/update/info",
            Resolver::UpdateUserPassword => "/api/v1/users/update/password",
            Resolver::ResetUserPassword => "/api/v1/users/auth/reset",
            Resolver::ConfirmUserResetPassword => "/api/v1/users/auth/reset/confirm",
            Resolver::DeleteCategory => "/api/v1/builder/category/delete",
            Resolver::DeleteFeature => "/api/v1/builder/feature/delete",
            Resolver::DeleteTemplate => "/api/v1/builder/template/delete",
            Resolver::UpdateTemplateFeatures => "/api/v1/builder/template/feature/update",
            Resolver::AddTemplateSpecification => "/api/v1/builder/template/specification/add",
            Resolver::AddCategory => "/api/v1/builder/category/create",
            Resolver::UpdateCategory => "/api/v1/builder/category/update",
            Resolver::AddFeature => "/api/v1/builder/feature/create",
            Resolver::UpdateFeature => "/api/v1/builder/feature/update",
            Resolver::DeleteFeatureWireframe => "/api/v1/builder/feature/wireframe/delete",
            Resolver::AddFeatureWireframes => "/api/v1/builder/feature/wireframe/add",
            Resolver::AddTemplate => "/api/v1/builder/template/create",
            Resolver::UpdateTemplate => "/api/v1/builder/template/update",
            Resolver::AddPrototype => "/api/v1/builder/prototype/add",
            Resolver::UpdatePrototype => "/api/v1/builder/prototype/update",
            Resolver::AddProject => "/api/v1/builder/project/add",
            Resolver::ChangeProjectState => "/api/v1/builder/project/state",
            Resolver::UpdateProject => "/api/v1/builder/project/update",
            Resolver::AddProjectProposal => "/api/v1/builder/project/proposal/add",
            Resolver::AddProjectMvp => "/api/v1/builder/project/mvp/add",
            Resolver::AddProjectFullBuild => "/api/v1/builder/project/full_build/add",
            Resolver::AddProjectDesign => "/api/v1/builder/project/design/add",
        }
    }

    /// Whether the resolver passes the caller's token on.
    pub fn sends_token(&self) -> (res: bool)
        ensures
            res == resolver_sends_token(*self),
    {
        match self {
            Resolver::GetAllUsers => true,
            Resolver::GetUserById => true,
            Resolver::GetCategoryById => true,
            Resolver::GetFeatureById => true,
            Resolver::GetPrototypeById => true,
            Resolver::GetTemplateById => true,
            Resolver::GetProjectById => true,
            Resolver::GetAllProjectsByClientId => true,
            Resolver::GetAllProjects => true,
            Resolver::GetAllCategories => true,
            Resolver::GetAllFeatures => true,
            Resolver::GetAllTemplates => true,
            Resolver::GetAllTemplatesByCategoriesId => true,
            Resolver::Signup => false,
            Resolver::CreateUser => false,
            Resolver::Login => false,
            Resolver::DeleteUser => true,
            Resolver::UpdateUserInfo => true,
            Resolver::UpdateUserPassword => true,
            Resolver::ResetUserPassword => false,
            Resolver::ConfirmUserResetPassword => false,
            Resolver::DeleteCategory => true,
            Resolver::DeleteFeature => true,
            Resolver::DeleteTemplate => true,
            Resolver::UpdateTemplateFeatures => true,
            Resolver::AddTemplateSpecification => true,
            Resolver::AddCategory => true,
            Resolver::UpdateCategory => true,
            Resolver::AddFeature => true,
            Resolver::UpdateFeature => true,
            Resolver::DeleteFeatureWireframe => true,
            Resolver::AddFeatureWireframes => true,
            Resolver::AddTemplate => true,
            Resolver::UpdateTemplate => true,
            Resolver::AddPrototype => true,
            Resolver::UpdatePrototype => true,
            Resolver::AddProject => true,
            Resolver::ChangeProjectState => true,
            Resolver::UpdateProject => true,
            Resolver::AddProjectProposal => true,
            Resolver::AddProjectMvp => true,
            Resolver::AddProjectFullBuild => true,
            Resolver::AddProjectDesign => true,
        }
    }

    /// The `info` added to a "not found" answer.
    pub fn not_found_info(&self) -> (res: &'static str)
        ensures
            res@ == resolver_not_found_info(*self),
    {
        match self {
            Resolver::GetAllUsers => "Users Not Found !",
            Resolver::GetUserById => "User Not Found !",
            Resolver::GetCategoryById => "Category Not Found !",
            Resolver::GetFeatureById => "Feature Not Found!",
            Resolver::GetPrototypeById => "ProtoType Dosent Existe To Delete !",
            Resolver::GetTemplateById => "Template Not Found!",
            Resolver::GetProjectById => "Project Not Found !",
            Resolver::GetAllProjectsByClientId => " User Not Found !",
            Resolver::GetAllProjects => " Projects Not Found !",
            Resolver::GetAllCategories => "Categories not Found !",
            Resolver::GetAllFeatures => "Features not Found!",
            Resolver::GetAllTemplates => "Templates not Found!",
            Resolver::GetAllTemplatesByCategoriesId => "Templates Not Found!",
            Resolver::Signup => "Bad Credentials Or User Dosent Existe !",
            Resolver::CreateUser => "Bad Credentials Or User Dosent Existe !",
            Resolver::Login => "Bad Credentials !",
            Resolver::DeleteUser => "User Not Found !",
            Resolver::UpdateUserInfo => "User Not Found !",
            Resolver::UpdateUserPassword => "User Not Found !",
            Resolver::ResetUserPassword => "User Not Found !",
            Resolver::ConfirmUserResetPassword => "User Not Found !",
            Resolver::DeleteCategory => "Category Not Found !",
            Resolver::DeleteFeature => "Feature Not Found !",
            Resolver::DeleteTemplate => "Template Not Found !",
            Resolver::UpdateTemplateFeatures => "Template Not Found !",
            Resolver::AddTemplateSpecification => "Template Not Found !",
            Resolver::AddCategory => "Category Not Found !",
            Resolver::UpdateCategory => "Category Not Found!",
            Resolver::AddFeature => "Feature Not Found !",
            Resolver::UpdateFeature => "Feature Not Found !",
            Resolver::DeleteFeatureWireframe => "Feature Wireframe Not Found !",
            Resolver::AddFeatureWireframes => "Feature Not Found !",
            Resolver::AddTemplate => "Template Not Found !",
            Resolver::UpdateTemplate => "Template Not Found !",
            Resolver::AddPrototype => "PrototType Not Found !",
            Resolver::UpdatePrototype => "ProtoType Not Found !",
            Resolver::AddProject => "Project Not Found !",
            Resolver::ChangeProjectState => "Project Not Found!",
            Resolver::UpdateProject => "Project Not Found!",
            Resolver::AddProjectProposal => "Project Not Found!",
            Resolver::AddProjectMvp => "Project Not Found!",
            Resolver::AddProjectFullBuild => "Project Not Found!",
            Resolver::AddProjectDesign => "Project Not Found!",
        }
    }

    /// The `info` added to a "forbidden" answer, where the resolver tells it apart.
    pub fn forbidden_info(&self) -> (res: Option<&'static str>)
        ensures
            match res { Some(t) => resolver_forbidden_info(*self) == Some(t@), None => resolver_forbidden_info(*self) is None },
    {
        match self {
            Resolver::GetAllUsers => Some("User not ALLowed or Bad Authorization Header !"),
            Resolver::GetUserById => Some("User not ALLowed or Bad Authorization Header !"),
            Resolver::GetCategoryById => Some(" Bad Authorization Header !"),
            Resolver::GetFeatureById => Some(" Bad Authorization Header !"),
            Resolver::GetPrototypeById => Some("Bad Authorization Header !"),
            Resolver::GetTemplateById => Some(" Bad Authorization Header !"),
            Resolver::GetProjectById => Some("Bad Authorization Header !"),
            Resolver::GetAllProjectsByClientId => Some("Bad Authorization Header !"),
            Resolver::GetAllProjects => Some("Bad Authorization Header !"),
            Resolver::GetAllCategories => Some("Bad Authorization Header !"),
            Resolver::GetAllFeatures => Some("Bad Authorization Header !"),
            Resolver::GetAllTemplates => Some("Bad Authorization Header !"),
            Resolver::GetAllTemplatesByCategoriesId => Some("Bad Authorization Header !"),
            Resolver::Signup => None,
            Resolver::CreateUser => None,
            Resolver::Login => None,
            Resolver::DeleteUser => Some("User Not ALLowed  !"),
            Resolver::UpdateUserInfo => Some("User Not ALLowed  !"),
            Resolver::UpdateUserPassword => Some("User Not ALLowed  !"),
            Resolver::ResetUserPassword => Some("User Not ALLowed!"),
            Resolver::ConfirmUserResetPassword => Some("User Not ALLowed !"),
            Resolver::DeleteCategory => Some("Bad Authorization Header !"),
            Resolver::DeleteFeature => Some("Bad Authorization Header !"),
            Resolver::DeleteTemplate => Some("Bad Authorization Header !"),
            Resolver::UpdateTemplateFeatures => Some("Bad Authorization Header !"),
            Resolver::AddTemplateSpecification => Some("Bad Authorization Header !"),
            Resolver::AddCategory => Some("Bad Authorization Header !"),
            Resolver::UpdateCategory => Some("Bad Authorization Header !"),
            Resolver::AddFeature => Some("Bad Authorization Header !"),
            Resolver::UpdateFeature => Some("Bad Authorization Header !"),
            Resolver::DeleteFeatureWireframe => Some("Bad Authorization Header !"),
            Resolver::AddFeatureWireframes => Some("Bad Authorization Header !"),
            Resolver::AddTemplate => Some("Bad Authorization Header !"),
            Resolver::UpdateTemplate => Some("Bad Authorization Header !"),
            Resolver::AddPrototype => Some("Bad Authorization Header !"),
            Resolver::UpdatePrototype => Some("Bad Authorization Header !"),
            Resolver::AddProject => Some("Bad Authorization Header !"),
            Resolver::ChangeProjectState => Some("Bad Authorization Header !"),
            Resolver::UpdateProject => Some("Bad Authorization Header !"),
            Resolver::AddProjectProposal => Some("Bad Authorization Header !"),
            Resolver::AddProjectMvp => Some("Bad Authorization Header !"),
            Resolver::AddProjectFullBuild => Some("Bad Authorization Header !"),
            Resolver::AddProjectDesign => Some("Bad Authorization Header !"),
        }
    }

    /// The `info` added to a "conflict" answer, where the resolver tells it apart.
    pub fn conflict_info(&self) -> (res: Option<&'static str>)
        ensures
            match res { Some(t) => resolver_conflict_info(*self) == Some(t@), None => resolver_conflict_info(*self) is None },
    {
        match self {
            Resolver::GetAllUsers => None,
            Resolver::GetUserById => None,
            Resolver::GetCategoryById => None,
            Resolver::GetFeatureById => None,
            Resolver::GetPrototypeById => None,
            Resolver::GetTemplateById => None,
            Resolver::GetProjectById => None,
            Resolver::GetAllProjectsByClientId => None,
            Resolver::GetAllProjects => None,
            Resolver::GetAllCategories => None,
            Resolver::GetAllFeatures => None,
            Resolver::GetAllTemplates => None,
            Resolver::GetAllTemplatesByCategoriesId => None,
            Resolver::Signup => Some("User Already Exist !"),
            Resolver::CreateUser => Some("User Already Exist !"),
            Resolver::Login => None,
            Resolver::DeleteUser => None,
            Resolver::UpdateUserInfo => None,
            Resolver::UpdateUserPassword => None,
            Resolver::ResetUserPassword => None,
            Resolver::ConfirmUserResetPassword => None,
            Resolver::DeleteCategory => None,
            Resolver::DeleteFeature => None,
            Resolver::DeleteTemplate => None,
            Resolver::UpdateTemplateFeatures => None,
            Resolver::AddTemplateSpecification => None,
            Resolver::AddCategory => None,
            Resolver::UpdateCategory => None,
            Resolver::AddFeature => None,
            Resolver::UpdateFeature => None,
            Resolver::DeleteFeatureWireframe => None,
            Resolver::AddFeatureWireframes => None,
            Resolver::AddTemplate => None,
            Resolver::UpdateTemplate => None,
            Resolver::AddPrototype => None,
            Resolver::UpdatePrototype => None,
            Resolver::AddProject => None,
            Resolver::ChangeProjectState => None,
            Resolver::UpdateProject => None,
            Resolver::AddProjectProposal => None,
            Resolver::AddProjectMvp => None,
            Resolver::AddProjectFullBuild => None,
            Resolver::AddProjectDesign => None,
        }
    }

}

/// The `info` of an answer the resolvers do not tell apart.
pub open spec fn server_error_info() -> Seq<char> {
    "Somthing Wrong Happenend ! "@
}

/// The path of the call that sends a new user the details of its account.
pub const ACCOUNT_MAIL_PATH: &'static str = "/api/v1/users/auth/send/account";

/// The error a resolver answers with: its kind, and the `info` extension that
/// says what went wrong.
pub struct ResolverError {
    pub kind: UserCustomResponseError,
    pub info: String,
}

impl ResolverError {
    /// The message of the error.
    pub fn message(&self) -> (res: &'static str)
        ensures
            res@ == user_error_message(self.kind),
    {
        self.kind.message()
    }

    /// The `code` extension of the error.
    pub fn code(&self) -> (res: &'static str)
        ensures
            res@ == user_error_code(self.kind),
    {
        self.kind.code()
    }
}

/// How a resolver turns the status of the service's answer into its result:
/// success on 200; on 409, 404 and 403 the matching error with the resolver's
/// own `info`, where the resolver tells that status apart; otherwise a server error.
pub open spec fn resolver_outcome(r: Resolver, status: u16) -> Result<(), (UserCustomResponseError, Seq<char>)> {
    if status == 200 {
        Ok(())
    } else if status == 409 && resolver_conflict_info(r) is Some {
        Err((UserCustomResponseError::Conflict, resolver_conflict_info(r)->0))
    } else if status == 404 {
        Err((UserCustomResponseError::NotFound, resolver_not_found_info(r)))
    } else if status == 403 && resolver_forbidden_info(r) is Some {
        Err((UserCustomResponseError::NotAllowed, resolver_forbidden_info(r)->0))
    } else {
        Err((UserCustomResponseError::ServerError, server_error_info()))
    }
}

fn resolver_error(kind: UserCustomResponseError, info: &str) -> (res: ResolverError)
    ensures
        res.kind == kind,
        res.info@ == info@,
{
    ResolverError { kind, info: info.to_owned() }
}

/// The result of the resolver `r`, given the status of the service's answer.
/// On success the resolver answers with the body the service sent.
pub fn resolver_answer(r: Resolver, status: u16) -> (res: Result<(), ResolverError>)
    ensures
        match res {
            Ok(_) => resolver_outcome(r, status) == Ok::<(), (UserCustomResponseError, Seq<char>)>(()),
            Err(e) => resolver_outcome(r, status) == Err::<(), (UserCustomResponseError, Seq<char>)>((e.kind, e.info@)),
        },
{
    if status == 200 {
        return Ok(());
    }
    if status == 409 {
        match r.conflict_info() {
            Some(info) => return Err(resolver_error(UserCustomResponseError::Conflict, info)),
            None => {},
        }
    }
    if status == 404 {
        return Err(resolver_error(UserCustomResponseError::NotFound, r.not_found_info()));
    }
    if status == 403 {
        match r.forbidden_info() {
            Some(info) => return Err(resolver_error(UserCustomResponseError::NotAllowed, info)),
            None => {},
        }
    }
    Err(resolver_error(UserCustomResponseError::ServerError, "Somthing Wrong Happenend ! "))
}

/// Creating a user, second call: the account mail was sent on 200; any other
/// status is a server error.
pub fn account_mail_answer(status: u16) -> (res: Result<(), ResolverError>)
    ensures
        status == 200 ==> res is Ok,
        status != 200 ==> (res matches Err(e) && e.kind == UserCustomResponseError::ServerError && e.info@ == server_error_info()),
{
    if status == 200 {
        Ok(())
    } else {
        Err(resolver_error(UserCustomResponseError::ServerError, "Somthing Wrong Happenend ! "))
    }
}

/// The `Authorization` header a resolver passes on: the caller's, or the bare
/// word `"Authorization "` when the caller sent none.
pub fn authorization_value(token: Option<&str>) -> (res: String)
    ensures
        match token {
            Some(t) => res@ == t@,
            None => res@ == "Authorization "@,
        },
{
    match token {
        Some(t) => t.to_owned(),
        None => "Authorization ".to_owned(),
    }
}

/// Every resolver succeeds when the service answers 200.
pub proof fn lemma_ok_status_succeeds(r: Resolver)
    ensures
        resolver_outcome(r, 200) == Ok::<(), (UserCustomResponseError, Seq<char>)>(()),
{
}

/// Only the two resolvers that sign users up tell a conflict apart; every
/// other resolver answers 409 with a server error.
pub proof fn lemma_conflict_only_on_sign_up(r: Resolver)
    ensures
        (resolver_outcome(r, 409) matches Err((k, _)) && k == UserCustomResponseError::Conflict)
            <==> (r == Resolver::Signup || r == Resolver::CreateUser),
{
}

/// A status other than 200, 403, 404 and 409 is always a server error.
pub proof fn lemma_other_status_is_server_error(r: Resolver, status: u16)
    requires
        status != 200 && status != 403 && status != 404 && status != 409,
    ensures
        resolver_outcome(r, status) == Err::<(), (UserCustomResponseError, Seq<char>)>((UserCustomResponseError::ServerError, server_error_info())),
{
}

} // verus!

verus! {

/// The routes the authentication service serves, each with its method, under
/// `/api/v1/users`.
pub open spec fn auth_route(method: Method, path: Seq<char>) -> bool {
    ||| method == Method::Post && path == "/api/v1/users/auth/signup"@
    ||| method == Method::Post && path == "/api/v1/users/auth/login"@
    ||| method == Method::Get && path == "/api/v1/users/all"@
    ||| method == Method::Post && path == "/api/v1/users/get"@
    ||| method == Method::Delete && path == "/api/v1/users/delete"@
    ||| method == Method::Put && path == "/api/v1/users/update/info"@
    ||| method == Method::Put && path == "/api/v1/users/update/password"@
    ||| method == Method::Post && path == "/api/v1/users/auth/reset"@
    ||| method == Method::Put && path == "/api/v1/users/auth/reset/confirm"@
    ||| method == Method::Post && path == "/api/v1/users/auth/send/account"@
    ||| method == Method::Post && path == "/api/v1/users/auth/verfiyToken"@
}

/// The routes of the authentication service that read the caller's
/// `Authorization` header and refuse a request that does not prove a user.
pub open spec fn auth_route_authenticates(method: Method, path: Seq<char>) -> bool {
    ||| method == Method::Get && path == "/api/v1/users/all"@
    ||| method == Method::Post && path == "/api/v1/users/get"@
    ||| method == Method::Delete && path == "/api/v1/users/delete"@
    ||| method == Method::Put && path == "/api/v1/users/update/info"@
    ||| method == Method::Put && path == "/api/v1/users/update/password"@
    ||| method == Method::Post && path == "/api/v1/users/auth/verfiyToken"@
}

/// The routes the content builder service serves, each with its method, under
/// `/api/v1/builder`.
pub open spec fn builder_route(method: Method, path: Seq<char>) -> bool {
    ||| method == Method::Get && path == "/api/v1/builder/category/all"@
    ||| method == Method::Delete && path == "/api/v1/builder/category/delete"@
    ||| method == Method::Post && path == "/api/v1/builder/category/get"@
    ||| method == Method::Post && path == "/api/v1/builder/category/create"@
    ||| method == Method::Put && path == "/api/v1/builder/category/update"@
    ||| method == Method::Get && path == "/api/v1/builder/feature/all"@
    ||| method == Method::Post && path == "/api/v1/builder/feature/get"@
    ||| method == Method::Delete && path == "/api/v1/builder/feature/delete"@
    ||| method == Method::Post && path == "/api/v1/builder/feature/wireframe/add"@
    ||| method == Method::Delete && path == "/api/v1/builder/feature/wireframe/delete"@
    ||| method == Method::Post && path == "/api/v1/builder/feature/create"@
    ||| method == Method::Put && path == "/api/v1/builder/feature/update"@
    ||| method == Method::Post && path == "/api/v1/builder/project/add"@
    ||| method == Method::Post && path == "/api/v1/builder/project/get"@
    ||| method == Method::Post && path == "/api/v1/builder/project/user/get"@
    ||| method == Method::Delete && path == "/api/v1/builder/project/state"@
    ||| method == Method::Get && path == "/api/v1/builder/project/all"@
    ||| method == Method::Put && path == "/api/v1/builder/project/update"@
    ||| method == Method::Post && path == "/api/v1/builder/project/specification/generate"@
    ||| method == Method::Put && path == "/api/v1/builder/project/full_build/add"@
    ||| method == Method::Put && path == "/api/v1/builder/project/proposal/add"@
    ||| method == Method::Put && path == "/api/v1/builder/project/mvp/add"@
    ||| method == Method::Put && path == "/api/v1/builder/project/design/add"@
    ||| method == Method::Post && path == "/api/v1/builder/prototype/add"@
    ||| method == Method::Post && path == "/api/v1/builder/prototype/get"@
    ||| method == Method::Put && path == "/api/v1/builder/prototype/update"@
    ||| method == Method::Get && path == "/api/v1/builder/template/all"@
    ||| method == Method::Post && path == "/api/v1/builder/template/categories/all"@
    ||| method == Method::Post && path == "/api/v1/builder/template/create"@
    ||| method == Method::Put && path == "/api/v1/builder/template/update"@
    ||| method == Method::Delete && path == "/api/v1/builder/template/delete"@
    ||| method == Method::Put && path == "/api/v1/builder/template/feature/update"@
    ||| method == Method::Post && path == "/api/v1/builder/template/get"@
    ||| method == Method::Put && path == "/api/v1/builder/template/specification/add"@
}

/// Whether `service` serves `path` for `method`.
pub open spec fn service_serves(service: Service, method: Method, path: Seq<char>) -> bool {
    match service {
        Service::Auth => auth_route(method, path),
        Service::Builder => builder_route(method, path),
    }
}

/// Every resolver calls a route that the service it calls serves, with the
/// method that service registers for it; and the account mail goes to a route
/// the authentication service serves for a POST.
pub proof fn lemma_resolvers_call_served_routes()
    ensures
        forall|r: Resolver| #[trigger] service_serves(resolver_service(r), resolver_method(r), resolver_path(r)),
        auth_route(Method::Post, ACCOUNT_MAIL_PATH@),
{
    reveal_strlit("/api/v1/users/auth/send/account");
}

} // verus!

verus! {

/// What tells the paths that resolvers call apart: the length of each, and
/// for two paths of one length called with one method, a character where
/// they differ.
proof fn lemma_call_paths_told_apart()
    ensures
        "/api/v1/builder/category/all"@.len() == 28,
        "/api/v1/builder/category/create"@.len() == 31,
        "/api/v1/builder/category/delete"@.len() == 31,
        "/api/v1/builder/category/get"@.len() == 28,
        "/api/v1/builder/category/update"@.len() == 31,
        "/api/v1/builder/feature/all"@.len() == 27,
        "/api/v1/builder/feature/create"@.len() == 30,
        "/api/v1/builder/feature/delete"@.len() == 30,
        "/api/v1/builder/feature/get"@.len() == 27,
        "/api/v1/builder/feature/update"@.len() == 30,
        "/api/v1/builder/feature/wireframe/add"@.len() == 37,
        "/api/v1/builder/feature/wireframe/delete"@.len() == 40,
        "/api/v1/builder/project/add"@.len() == 27,
        "/api/v1/builder/project/all"@.len() == 27,
        "/api/v1/builder/project/design/add"@.len() == 34,
        "/api/v1/builder/project/full_build/add"@.len() == 38,
        "/api/v1/builder/project/get"@.len() == 27,
        "/api/v1/builder/project/mvp/add"@.len() == 31,
        "/api/v1/builder/project/proposal/add"@.len() == 36,
        "/api/v1/builder/project/state"@.len() == 29,
        "/api/v1/builder/project/update"@.len() == 30,
        "/api/v1/builder/project/user/get"@.len() == 32,
        "/api/v1/builder/prototype/add"@.len() == 29,
        "/api/v1/builder/prototype/get"@.len() == 29,
        "/api/v1/builder/prototype/update"@.len() == 32,
        "/api/v1/builder/template/all"@.len() == 28,
        "/api/v1/builder/template/categories/all"@.len() == 39,
        "/api/v1/builder/template/create"@.len() == 31,
        "/api/v1/builder/template/delete"@.len() == 31,
        "/api/v1/builder/template/feature/update"@.len() == 39,
        "/api/v1/builder/template/get"@.len() == 28,
        "/api/v1/builder/template/specification/add"@.len() == 42,
        "/api/v1/builder/template/update"@.len() == 31,
        "/api/v1/users/all"@.len() == 17,
        "/api/v1/users/auth/login"@.len() == 24,
        "/api/v1/users/auth/reset"@.len() == 24,
        "/api/v1/users/auth/reset/confirm"@.len() == 32,
        "/api/v1/users/auth/signup"@.len() == 25,
        "/api/v1/users/delete"@.len() == 20,
        "/api/v1/users/get"@.len() == 17,
        "/api/v1/users/update/info"@.len() == 25,
        "/api/v1/users/update/password"@.len() == 29,
        "/api/v1/builder/category/all"@[16] == 'c',
        "/api/v1/builder/category/create"@[16] == 'c',
        "/api/v1/builder/category/delete"@[16] == 'c',
        "/api/v1/builder/category/get"@[16] == 'c',
        "/api/v1/builder/category/update"@[16] == 'c',
        "/api/v1/builder/feature/all"@[16] == 'f',
        "/api/v1/builder/feature/get"@[16] == 'f',
        "/api/v1/builder/feature/update"@[16] == 'f',
        "/api/v1/builder/project/add"@[16] == 'p',
        "/api/v1/builder/project/add"@[24] == 'a',
        "/api/v1/builder/project/all"@[16] == 'p',
        "/api/v1/builder/project/get"@[16] == 'p',
        "/api/v1/builder/project/get"@[24] == 'g',
        "/api/v1/builder/project/mvp/add"@[16] == 'p',
        "/api/v1/builder/project/update"@[16] == 'p',
        "/api/v1/builder/prototype/add"@[26] == 'a',
        "/api/v1/builder/prototype/get"@[26] == 'g',
        "/api/v1/builder/prototype/update"@[8] == 'b',
        "/api/v1/builder/template/all"@[16] == 't',
        "/api/v1/builder/template/create"@[16] == 't',
        "/api/v1/builder/template/delete"@[16] == 't',
        "/api/v1/builder/template/get"@[16] == 't',
        "/api/v1/builder/template/update"@[16] == 't',
        "/api/v1/users/auth/login"@[19] == 'l',
        "/api/v1/users/auth/reset"@[19] == 'r',
        "/api/v1/users/auth/reset/confirm"@[8] == 'u',
{
    reveal_strlit("/api/v1/builder/category/all");
    reveal_strlit("/api/v1/builder/category/create");
    reveal_strlit("/api/v1/builder/category/delete");
    reveal_strlit("/api/v1/builder/category/get");
    reveal_strlit("/api/v1/builder/category/update");
    reveal_strlit("/api/v1/builder/feature/all");
    reveal_strlit("/api/v1/builder/feature/create");
    reveal_strlit("/api/v1/builder/feature/delete");
    reveal_strlit("/api/v1/builder/feature/get");
    reveal_strlit("/api/v1/builder/feature/update");
    reveal_strlit("/api/v1/builder/feature/wireframe/add");
    reveal_strlit("/api/v1/builder/feature/wireframe/delete");
    reveal_strlit("/api/v1/builder/project/add");
    reveal_strlit("/api/v1/builder/project/all");
    reveal_strlit("/api/v1/builder/project/design/add");
    reveal_strlit("/api/v1/builder/project/full_build/add");
    reveal_strlit("/api/v1/builder/project/get");
    reveal_strlit("/api/v1/builder/project/mvp/add");
    reveal_strlit("/api/v1/builder/project/proposal/add");
    reveal_strlit("/api/v1/builder/project/state");
    reveal_strlit("/api/v1/builder/project/update");
    reveal_strlit("/api/v1/builder/project/user/get");
    reveal_strlit("/api/v1/builder/prototype/add");
    reveal_strlit("/api/v1/builder/prototype/get");
    reveal_strlit("/api/v1/builder/prototype/update");
    reveal_strlit("/api/v1/builder/template/all");
    reveal_strlit("/api/v1/builder/template/categories/all");
    reveal_strlit("/api/v1/builder/template/create");
    reveal_strlit("/api/v1/builder/template/delete");
    reveal_strlit("/api/v1/builder/template/feature/update");
    reveal_strlit("/api/v1/builder/template/get");
    reveal_strlit("/api/v1/builder/template/specification/add");
    reveal_strlit("/api/v1/builder/template/update");
    reveal_strlit("/api/v1/users/all");
    reveal_strlit("/api/v1/users/auth/login");
    reveal_strlit("/api/v1/users/auth/reset");
    reveal_strlit("/api/v1/users/auth/reset/confirm");
    reveal_strlit("/api/v1/users/auth/signup");
    reveal_strlit("/api/v1/users/delete");
    reveal_strlit("/api/v1/users/get");
    reveal_strlit("/api/v1/users/update/info");
    reveal_strlit("/api/v1/users/update/password");
}

/// The gateway passes the caller's token on exactly where the route it calls
/// may need it: to every route of the content builder, and to the routes of
/// the authentication service that authenticate their caller; never to the
/// public ones (signing up, logging in, resetting a password).
pub proof fn lemma_token_passed_where_checked()
    ensures
        forall|r: Resolver| #[trigger] resolver_sends_token(r) == (resolver_service(r) == Service::Builder
            || auth_route_authenticates(resolver_method(r), resolver_path(r))),
{
    lemma_call_paths_told_apart();
    reveal_strlit("/api/v1/users/auth/verfiyToken");
    assert("/api/v1/users/auth/verfiyToken"@.len() == 30);
    assert forall|r: Resolver| #[trigger] resolver_sends_token(r) == (resolver_service(r) == Service::Builder
        || auth_route_authenticates(resolver_method(r), resolver_path(r))) by {
        match r {
            Resolver::GetAllUsers => {},
            Resolver::GetUserById => {},
            Resolver::GetCategoryById => {},
            Resolver::GetFeatureById => {},
            Resolver::GetPrototypeById => {},
            Resolver::GetTemplateById => {},
            Resolver::GetProjectById => {},
            Resolver::GetAllProjectsByClientId => {},
            Resolver::GetAllProjects => {},
            Resolver::GetAllCategories => {},
            Resolver::GetAllFeatures => {},
            Resolver::GetAllTemplates => {},
            Resolver::GetAllTemplatesByCategoriesId => {},
            Resolver::Signup => {},
            Resolver::CreateUser => {},
            Resolver::Login => {},
            Resolver::DeleteUser => {},
            Resolver::UpdateUserInfo => {},
            Resolver::UpdateUserPassword => {},
            Resolver::ResetUserPassword => {},
            Resolver::ConfirmUserResetPassword => {},
            Resolver::DeleteCategory => {},
            Resolver::DeleteFeature => {},
            Resolver::DeleteTemplate => {},
            Resolver::UpdateTemplateFeatures => {},
            Resolver::AddTemplateSpecification => {},
            Resolver::AddCategory => {},
            Resolver::UpdateCategory => {},
            Resolver::AddFeature => {},
            Resolver::UpdateFeature => {},
            Resolver::DeleteFeatureWireframe => {},
            Resolver::AddFeatureWireframes => {},
            Resolver::AddTemplate => {},
            Resolver::UpdateTemplate => {},
            Resolver::AddPrototype => {},
            Resolver::UpdatePrototype => {},
            Resolver::AddProject => {},
            Resolver::ChangeProjectState => {},
            Resolver::UpdateProject => {},
            Resolver::AddProjectProposal => {},
            Resolver::AddProjectMvp => {},
            Resolver::AddProjectFullBuild => {},
            Resolver::AddProjectDesign => {},
        }
    }
}

/// Distinct resolvers make distinct calls: no two of them send the same method
/// to the same path, but for the two that sign a user up.
#[verifier::rlimit(100)]
pub proof fn lemma_resolvers_make_distinct_calls()
    ensures
        forall|r1: Resolver, r2: Resolver|
            #![trigger resolver_path(r1), resolver_path(r2)]
            resolver_method(r1) == resolver_method(r2) && resolver_path(r1) == resolver_path(r2) ==> r1 == r2
                || ((r1 == Resolver::Signup || r1 == Resolver::CreateUser) && (r2 == Resolver::Signup || r2 == Resolver::CreateUser)),
{
    lemma_call_paths_told_apart();
    assert forall|r1: Resolver, r2: Resolver|
        #![trigger resolver_path(r1), resolver_path(r2)]
        resolver_method(r1) == resolver_method(r2) && resolver_path(r1) == resolver_path(r2) implies r1 == r2
            || ((r1 == Resolver::Signup || r1 == Resolver::CreateUser) && (r2 == Resolver::Signup || r2 == Resolver::CreateUser)) by {
        match r1 {
            Resolver::GetAllUsers => {},
            Resolver::GetUserById => {},
            Resolver::GetCategoryById => {},
            Resolver::GetFeatureById => {},
            Resolver::GetPrototypeById => {},
            Resolver::GetTemplateById => {},
            Resolver::GetProjectById => {},
            Resolver::GetAllProjectsByClientId => {},
            Resolver::GetAllProjects => {},
            Resolver::GetAllCategories => {},
            Resolver::GetAllFeatures => {},
            Resolver::GetAllTemplates => {},
            Resolver::GetAllTemplatesByCategoriesId => {},
            Resolver::Signup => {},
            Resolver::CreateUser => {},
            Resolver::Login => {},
            Resolver::DeleteUser => {},
            Resolver::UpdateUserInfo => {},
            Resolver::UpdateUserPassword => {},
            Resolver::ResetUserPassword => {},
            Resolver::ConfirmUserResetPassword => {},
            Resolver::DeleteCategory => {},
            Resolver::DeleteFeature => {},
            Resolver::DeleteTemplate => {},
            Resolver::UpdateTemplateFeatures => {},
            Resolver::AddTemplateSpecification => {},
            Resolver::AddCategory => {},
            Resolver::UpdateCategory => {},
            Resolver::AddFeature => {},
            Resolver::UpdateFeature => {},
            Resolver::DeleteFeatureWireframe => {},
            Resolver::AddFeatureWireframes => {},
            Resolver::AddTemplate => {},
            Resolver::UpdateTemplate => {},
            Resolver::AddPrototype => {},
            Resolver::UpdatePrototype => {},
            Resolver::AddProject => {},
            Resolver::ChangeProjectState => {},
            Resolver::UpdateProject => {},
            Resolver::AddProjectProposal => {},
            Resolver::AddProjectMvp => {},
            Resolver::AddProjectFullBuild => {},
            Resolver::AddProjectDesign => {},
        }
    }
}

} // verus!
verus! {

/// Every route of the authentication service has a resolver of the gateway that
/// calls it, with the method the service registers for it; but for the account
/// mail, which the gateway sends itself, and the token check, which it never calls.
pub proof fn lemma_auth_routes_have_resolvers()
    ensures
        forall|method: Method, path: Seq<char>| #[trigger] auth_route(method, path) && path != "/api/v1/users/auth/send/account"@ && path != "/api/v1/users/auth/verfiyToken"@ ==> exists|r: Resolver|
            resolver_service(r) == Service::Auth && resolver_method(r) == method && #[trigger] resolver_path(r) == path,
{
    assert forall|method: Method, path: Seq<char>| #[trigger] auth_route(method, path) && path != "/api/v1/users/auth/send/account"@ && path != "/api/v1/users/auth/verfiyToken"@ implies exists|r: Resolver|
        resolver_service(r) == Service::Auth && resolver_method(r) == method && #[trigger] resolver_path(r) == path by {
        if method == Method::Post && path == "/api/v1/users/auth/signup"@ {
            assert(resolver_path(Resolver::Signup) == path);
        } else if method == Method::Post && path == "/api/v1/users/auth/login"@ {
            assert(resolver_path(Resolver::Login) == path);
        } else if method == Method::Get && path == "/api/v1/users/all"@ {
            assert(resolver_path(Resolver::GetAllUsers) == path);
        } else if method == Method::Post && path == "/api/v1/users/get"@ {
            assert(resolver_path(Resolver::GetUserById) == path);
        } else if method == Method::Delete && path == "/api/v1/users/delete"@ {
            assert(resolver_path(Resolver::DeleteUser) == path);
        } else if method == Method::Put && path == "/api/v1/users/update/info"@ {
            assert(resolver_path(Resolver::UpdateUserInfo) == path);
        } else if method == Method::Put && path == "/api/v1/users/update/password"@ {
            assert(resolver_path(Resolver::UpdateUserPassword) == path);
        } else if method == Method::Post && path == "/api/v1/users/auth/reset"@ {
            assert(resolver_path(Resolver::ResetUserPassword) == path);
        } else if method == Method::Put && path == "/api/v1/users/auth/reset/confirm"@ {
            assert(resolver_path(Resolver::ConfirmUserResetPassword) == path);
        }
    }
}

/// Every route of the content builder has a resolver of the gateway that calls
/// it, with the method the builder registers for it; but for the generation of a
/// project's specification, which the gateway never calls.
pub proof fn lemma_builder_routes_have_resolvers()
    ensures
        forall|method: Method, path: Seq<char>| #[trigger] builder_route(method, path) && path != "/api/v1/builder/project/specification/generate"@ ==> exists|r: Resolver|
            resolver_service(r) == Service::Builder && resolver_method(r) == method && #[trigger] resolver_path(r) == path,
{
    assert forall|method: Method, path: Seq<char>| #[trigger] builder_route(method, path) && path != "/api/v1/builder/project/specification/generate"@ implies exists|r: Resolver|
        resolver_service(r) == Service::Builder && resolver_method(r) == method && #[trigger] resolver_path(r) == path by {
        if method == Method::Get && path == "/api/v1/builder/category/all"@ {
            assert(resolver_path(Resolver::GetAllCategories) == path);
        } else if method == Method::Delete && path == "/api/v1/builder/category/delete"@ {
            assert(resolver_path(Resolver::DeleteCategory) == path);
        } else if method == Method::Post && path == "/api/v1/builder/category/get"@ {
            assert(resolver_path(Resolver::GetCategoryById) == path);
        } else if method == Method::Post && path == "/api/v1/builder/category/create"@ {
            assert(resolver_path(Resolver::AddCategory) == path);
        } else if method == Method::Put && path == "/api/v1/builder/category/update"@ {
            assert(resolver_path(Resolver::UpdateCategory) == path);
        } else if method == Method::Get && path == "/api/v1/builder/feature/all"@ {
            assert(resolver_path(Resolver::GetAllFeatures) == path);
        } else if method == Method::Post && path == "/api/v1/builder/feature/get"@ {
            assert(resolver_path(Resolver::GetFeatureById) == path);
        } else if method == Method::Delete && path == "/api/v1/builder/feature/delete"@ {
            assert(resolver_path(Resolver::DeleteFeature) == path);
        } else if method == Method::Post && path == "/api/v1/builder/feature/wireframe/add"@ {
            assert(resolver_path(Resolver::AddFeatureWireframes) == path);
        } else if method == Method::Delete && path == "/api/v1/builder/feature/wireframe/delete"@ {
            assert(resolver_path(Resolver::DeleteFeatureWireframe) == path);
        } else if method == Method::Post && path == "/api/v1/builder/feature/create"@ {
            assert(resolver_path(Resolver::AddFeature) == path);
        } else if method == Method::Put && path == "/api/v1/builder/feature/update"@ {
            assert(resolver_path(Resolver::UpdateFeature) == path);
        } else if method == Method::Post && path == "/api/v1/builder/project/add"@ {
            assert(resolver_path(Resolver::AddProject) == path);
        } else if method == Method::Post && path == "/api/v1/builder/project/get"@ {
            assert(resolver_path(Resolver::GetProjectById) == path);
        } else if method == Method::Post && path == "/api/v1/builder/project/user/get"@ {
            assert(resolver_path(Resolver::GetAllProjectsByClientId) == path);
        } else if method == Method::Delete && path == "/api/v1/builder/project/state"@ {
            assert(resolver_path(Resolver::ChangeProjectState) == path);
        } else if method == Method::Get && path == "/api/v1/builder/project/all"@ {
            assert(resolver_path(Resolver::GetAllProjects) == path);
        } else if method == Method::Put && path == "/api/v1/builder/project/update"@ {
            assert(resolver_path(Resolver::UpdateProject) == path);
        } else if method == Method::Put && path == "/api/v1/builder/project/full_build/add"@ {
            assert(resolver_path(Resolver::AddProjectFullBuild) == path);
        } else if method == Method::Put && path == "/api/v1/builder/project/proposal/add"@ {
            assert(resolver_path(Resolver::AddProjectProposal) == path);
        } else if method == Method::Put && path == "/api/v1/builder/project/mvp/add"@ {
            assert(resolver_path(Resolver::AddProjectMvp) == path);
        } else if method == Method::Put && path == "/api/v1/builder/project/design/add"@ {
            assert(resolver_path(Resolver::AddProjectDesign) == path);
        } else if method == Method::Post && path == "/api/v1/builder/prototype/add"@ {
            assert(resolver_path(Resolver::AddPrototype) == path);
        } else if method == Method::Post && path == "/api/v1/builder/prototype/get"@ {
            assert(resolver_path(Resolver::GetPrototypeById) == path);
        } else if method == Method::Put && path == "/api/v1/builder/prototype/update"@ {
            assert(resolver_path(Resolver::UpdatePrototype) == path);
        } else if method == Method::Get && path == "/api/v1/builder/template/all"@ {
            assert(resolver_path(Resolver::GetAllTemplates) == path);
        } else if method == Method::Post && path == "/api/v1/builder/template/categories/all"@ {
            assert(resolver_path(Resolver::GetAllTemplatesByCategoriesId) == path);
        } else if method == Method::Post && path == "/api/v1/builder/template/create"@ {
            assert(resolver_path(Resolver::AddTemplate) == path);
        } else if method == Method::Put && path == "/api/v1/builder/template/update"@ {
            assert(resolver_path(Resolver::UpdateTemplate) == path);
        } else if method == Method::Delete && path == "/api/v1/builder/template/delete"@ {
            assert(resolver_path(Resolver::DeleteTemplate) == path);
        } else if method == Method::Put && path == "/api/v1/builder/template/feature/update"@ {
            assert(resolver_path(Resolver::UpdateTemplateFeatures) == path);
        } else if method == Method::Post && path == "/api/v1/builder/template/get"@ {
            assert(resolver_path(Resolver::GetTemplateById) == path);
        } else if method == Method::Put && path == "/api/v1/builder/template/specification/add"@ {
            assert(resolver_path(Resolver::AddTemplateSpecification) == path);
        }
    }
}

} // verus!
