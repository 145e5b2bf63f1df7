//! Domain enumerations shared by the platform and their textual forms.

use vstd::prelude::*;
use vstd::string::StringExecFns;

verus! {

/// System-level role of a user inside a company.
#[derive(Debug, Clone, Copy, PartialEq, Eq, Structural)]
pub enum UserRole {
    Admin,
    Staff,
}

/// Fine-grained permission a staff member can hold.
#[derive(Debug, Clone, Copy, PartialEq, Eq, Structural, Hash)]
pub enum UserPermission {
    ViewProjects,
    ViewProjectMoney,
    EditResourceUsageToday,
    ViewResourceUsageHistory,
    ViewTimeline,
}

pub open spec fn permission_text(p: UserPermission) -> Seq<char> {
    match p {
        UserPermission::ViewProjects => "view_projects"@,
        UserPermission::ViewProjectMoney => "view_project_money"@,
        UserPermission::EditResourceUsageToday => "edit_resource_usage_today"@,
        UserPermission::ViewResourceUsageHistory => "view_resource_usage_history"@,
        UserPermission::ViewTimeline => "view_timeline"@,
    }
}

impl UserPermission {
    pub fn as_str(&self) -> (s: &'static str)
        ensures
            s@ == permission_text(*self),
    {
        match self {
            UserPermission::ViewProjects => "view_projects",
            UserPermission::ViewProjectMoney => "view_project_money",
            UserPermission::EditResourceUsageToday => "edit_resource_usage_today",
            UserPermission::ViewResourceUsageHistory => "view_resource_usage_history",
            UserPermission::ViewTimeline => "view_timeline",
        }
    }
}

pub open spec fn role_text(r: UserRole) -> Seq<char> {
    match r {
        UserRole::Admin => "admin"@,
        UserRole::Staff => "staff"@,
    }
}

impl UserRole {
    pub fn default_admin() -> (r: Self)
        ensures
            r == UserRole::Admin,
    {
        UserRole::Admin
    }

    pub fn as_str(&self) -> (s: &'static str)
        ensures
            s@ == role_text(*self),
    {
        match self {
            UserRole::Admin => "admin",
            UserRole::Staff => "staff",
        }
    }

    pub fn is_admin(&self) -> (b: bool)
        ensures
            b <==> *self == UserRole::Admin,
    {
        matches!(self, UserRole::Admin)
    }
}

impl Default for UserRole {
    fn default() -> (r: Self)
        ensures
            r == UserRole::Staff,
    {
        UserRole::Staff
    }
}
/// Basic income/expense kind used by categories, recurring plans and planned entries.
#[derive(Debug, Clone, Copy, PartialEq, Eq, Structural)]
pub enum FlowType {
    Income,
    Expense,
}

pub open spec fn flow_type_text(v: FlowType) -> Seq<char> {
    match v {
        FlowType::Income => "income"@,
        FlowType::Expense => "expense"@,
    }
}

impl FlowType {
    pub fn as_str(&self) -> (s: &'static str)
        ensures
            s@ == flow_type_text(*self),
    {
        match self {
            FlowType::Income => "income",
            FlowType::Expense => "expense",
        }
    }
}

/// Kind of financial account.
#[derive(Debug, Clone, Copy, PartialEq, Eq, Structural)]
pub enum AccountType {
    Bank,
    Cash,
    CreditCard,
    Investment,
    Other,
}

pub open spec fn account_type_text(v: AccountType) -> Seq<char> {
    match v {
        AccountType::Bank => "bank"@,
        AccountType::Cash => "cash"@,
        AccountType::CreditCard => "credit_card"@,
        AccountType::Investment => "investment"@,
        AccountType::Other => "other"@,
    }
}

impl AccountType {
    pub fn as_str(&self) -> (s: &'static str)
        ensures
            s@ == account_type_text(*self),
    {
        match self {
            AccountType::Bank => "bank",
            AccountType::Cash => "cash",
            AccountType::CreditCard => "credit_card",
            AccountType::Investment => "investment",
            AccountType::Other => "other",
        }
    }
}

/// Kind of real money movement.
#[derive(Debug, Clone, Copy, PartialEq, Eq, Structural)]
pub enum TransactionType {
    Income,
    Expense,
    Transfer,
}

pub open spec fn transaction_type_text(v: TransactionType) -> Seq<char> {
    match v {
        TransactionType::Income => "income"@,
        TransactionType::Expense => "expense"@,
        TransactionType::Transfer => "transfer"@,
    }
}

impl TransactionType {
    pub fn as_str(&self) -> (s: &'static str)
        ensures
            s@ == transaction_type_text(*self),
    {
        match self {
            TransactionType::Income => "income",
            TransactionType::Expense => "expense",
            TransactionType::Transfer => "transfer",
        }
    }
}

/// Kind of contact a company deals with.
#[derive(Debug, Clone, Copy, PartialEq, Eq, Structural)]
pub enum ContactType {
    Customer,
    Supplier,
    Service,
    Other,
}

pub open spec fn contact_type_text(v: ContactType) -> Seq<char> {
    match v {
        ContactType::Customer => "customer"@,
        ContactType::Supplier => "supplier"@,
        ContactType::Service => "service"@,
        ContactType::Other => "other"@,
    }
}

impl ContactType {
    pub fn as_str(&self) -> (s: &'static str)
        ensures
            s@ == contact_type_text(*self),
    {
        match self {
            ContactType::Customer => "customer",
            ContactType::Supplier => "supplier",
            ContactType::Service => "service",
            ContactType::Other => "other",
        }
    }
}

/// Status of a planned entry (commitment or budget item).
#[derive(Debug, Clone, Copy, PartialEq, Eq, Structural)]
pub enum PlannedStatus {
    Planned,
    PartiallyCovered,
    Covered,
    Overdue,
    Cancelled,
}

pub open spec fn planned_status_text(v: PlannedStatus) -> Seq<char> {
    match v {
        PlannedStatus::Planned => "planned"@,
        PlannedStatus::PartiallyCovered => "partially_covered"@,
        PlannedStatus::Covered => "covered"@,
        PlannedStatus::Overdue => "overdue"@,
        PlannedStatus::Cancelled => "cancelled"@,
    }
}

impl PlannedStatus {
    pub fn as_str(&self) -> (s: &'static str)
        ensures
            s@ == planned_status_text(*self),
    {
        match self {
            PlannedStatus::Planned => "planned",
            PlannedStatus::PartiallyCovered => "partially_covered",
            PlannedStatus::Covered => "covered",
            PlannedStatus::Overdue => "overdue",
            PlannedStatus::Cancelled => "cancelled",
        }
    }
}

/// Lifecycle of a service order.
#[derive(Debug, Clone, Copy, PartialEq, Eq, Structural)]
pub enum OrderStatus {
    Pending,
    Confirmed,
    InProgress,
    Completed,
    Cancelled,
}

pub open spec fn order_status_text(v: OrderStatus) -> Seq<char> {
    match v {
        OrderStatus::Pending => "pending"@,
        OrderStatus::Confirmed => "confirmed"@,
        OrderStatus::InProgress => "in_progress"@,
        OrderStatus::Completed => "completed"@,
        OrderStatus::Cancelled => "cancelled"@,
    }
}

pub open spec fn order_status_label_text(v: OrderStatus) -> Seq<char> {
    match v {
        OrderStatus::Pending => "Pendiente"@,
        OrderStatus::Confirmed => "Confirmada"@,
        OrderStatus::InProgress => "En proceso"@,
        OrderStatus::Completed => "Completada"@,
        OrderStatus::Cancelled => "Cancelada"@,
    }
}

impl OrderStatus {
    pub fn as_str(&self) -> (s: &'static str)
        ensures
            s@ == order_status_text(*self),
    {
        match self {
            OrderStatus::Pending => "pending",
            OrderStatus::Confirmed => "confirmed",
            OrderStatus::InProgress => "in_progress",
            OrderStatus::Completed => "completed",
            OrderStatus::Cancelled => "cancelled",
        }
    }

    pub fn label(&self) -> (s: &'static str)
        ensures
            s@ == order_status_label_text(*self),
    {
        match self {
            OrderStatus::Pending => "Pendiente",
            OrderStatus::Confirmed => "Confirmada",
            OrderStatus::InProgress => "En proceso",
            OrderStatus::Completed => "Completada",
            OrderStatus::Cancelled => "Cancelada",
        }
    }
}

/// Stage of a project, from the first request to delivery.
#[derive(Debug, Clone, Copy, PartialEq, Eq, Structural)]
pub enum ProjectStatus {
    Pedidos,
    Analisis,
    Cotizado,
    OrdenDeCompraMandada,
    Ingenieria,
    Produccion,
    Calidad,
    EsperandoEntrega,
    Entregado,
    Cancelado,
}

pub open spec fn project_status_text(v: ProjectStatus) -> Seq<char> {
    match v {
        ProjectStatus::Pedidos => "pedidos"@,
        ProjectStatus::Analisis => "analisis"@,
        ProjectStatus::Cotizado => "cotizado"@,
        ProjectStatus::OrdenDeCompraMandada => "orden_de_compra_mandada"@,
        ProjectStatus::Ingenieria => "ingenieria"@,
        ProjectStatus::Produccion => "produccion"@,
        ProjectStatus::Calidad => "calidad"@,
        ProjectStatus::EsperandoEntrega => "esperando_entrega"@,
        ProjectStatus::Entregado => "entregado"@,
        ProjectStatus::Cancelado => "cancelado"@,
    }
}

pub open spec fn project_status_label_text(v: ProjectStatus) -> Seq<char> {
    match v {
        ProjectStatus::Pedidos => "Pedidos"@,
        ProjectStatus::Analisis => "Análisis"@,
        ProjectStatus::Cotizado => "Cotizado"@,
        ProjectStatus::OrdenDeCompraMandada => "Orden de Compra Mandada"@,
        ProjectStatus::Ingenieria => "Ingeniería"@,
        ProjectStatus::Produccion => "Producción"@,
        ProjectStatus::Calidad => "Calidad"@,
        ProjectStatus::EsperandoEntrega => "Esperando Entrega"@,
        ProjectStatus::Entregado => "Entregado"@,
        ProjectStatus::Cancelado => "Cancelado"@,
    }
}

impl ProjectStatus {
    pub fn as_str(&self) -> (s: &'static str)
        ensures
            s@ == project_status_text(*self),
    {
        match self {
            ProjectStatus::Pedidos => "pedidos",
            ProjectStatus::Analisis => "analisis",
            ProjectStatus::Cotizado => "cotizado",
            ProjectStatus::OrdenDeCompraMandada => "orden_de_compra_mandada",
            ProjectStatus::Ingenieria => "ingenieria",
            ProjectStatus::Produccion => "produccion",
            ProjectStatus::Calidad => "calidad",
            ProjectStatus::EsperandoEntrega => "esperando_entrega",
            ProjectStatus::Entregado => "entregado",
            ProjectStatus::Cancelado => "cancelado",
        }
    }

    pub fn label(&self) -> (s: &'static str)
        ensures
            s@ == project_status_label_text(*self),
    {
        match self {
            ProjectStatus::Pedidos => "Pedidos",
            ProjectStatus::Analisis => "Análisis",
            ProjectStatus::Cotizado => "Cotizado",
            ProjectStatus::OrdenDeCompraMandada => "Orden de Compra Mandada",
            ProjectStatus::Ingenieria => "Ingeniería",
            ProjectStatus::Produccion => "Producción",
            ProjectStatus::Calidad => "Calidad",
            ProjectStatus::EsperandoEntrega => "Esperando Entrega",
            ProjectStatus::Entregado => "Entregado",
            ProjectStatus::Cancelado => "Cancelado",
        }
    }
}

/// Urgency of a project.
#[derive(Debug, Clone, Copy, PartialEq, Eq, Structural)]
pub enum ProjectPriority {
    Low,
    Medium,
    High,
    Urgent,
}

pub open spec fn project_priority_text(v: ProjectPriority) -> Seq<char> {
    match v {
        ProjectPriority::Low => "low"@,
        ProjectPriority::Medium => "medium"@,
        ProjectPriority::High => "high"@,
        ProjectPriority::Urgent => "urgent"@,
    }
}

pub open spec fn project_priority_label_text(v: ProjectPriority) -> Seq<char> {
    match v {
        ProjectPriority::Low => "Baja"@,
        ProjectPriority::Medium => "Media"@,
        ProjectPriority::High => "Alta"@,
        ProjectPriority::Urgent => "Urgente"@,
    }
}

impl ProjectPriority {
    pub fn as_str(&self) -> (s: &'static str)
        ensures
            s@ == project_priority_text(*self),
    {
        match self {
            ProjectPriority::Low => "low",
            ProjectPriority::Medium => "medium",
            ProjectPriority::High => "high",
            ProjectPriority::Urgent => "urgent",
        }
    }

    pub fn label(&self) -> (s: &'static str)
        ensures
            s@ == project_priority_label_text(*self),
    {
        match self {
            ProjectPriority::Low => "Baja",
            ProjectPriority::Medium => "Media",
            ProjectPriority::High => "Alta",
            ProjectPriority::Urgent => "Urgente",
        }
    }
}

/// Kind of physical resource used by projects.
#[derive(Debug, Clone, Copy, PartialEq, Eq, Structural)]
pub enum ResourceType {
    Machinery,
    Vehicle,
    Equipment,
    Other,
}

pub open spec fn resource_type_text(v: ResourceType) -> Seq<char> {
    match v {
        ResourceType::Machinery => "machinery"@,
        ResourceType::Vehicle => "vehicle"@,
        ResourceType::Equipment => "equipment"@,
        ResourceType::Other => "other"@,
    }
}

pub open spec fn resource_type_label_text(v: ResourceType) -> Seq<char> {
    match v {
        ResourceType::Machinery => "Maquinaria"@,
        ResourceType::Vehicle => "Vehículo"@,
        ResourceType::Equipment => "Equipo"@,
        ResourceType::Other => "Otro"@,
    }
}

impl ResourceType {
    pub fn as_str(&self) -> (s: &'static str)
        ensures
            s@ == resource_type_text(*self),
    {
        match self {
            ResourceType::Machinery => "machinery",
            ResourceType::Vehicle => "vehicle",
            ResourceType::Equipment => "equipment",
            ResourceType::Other => "other",
        }
    }

    pub fn label(&self) -> (s: &'static str)
        ensures
            s@ == resource_type_label_text(*self),
    {
        match self {
            ResourceType::Machinery => "Maquinaria",
            ResourceType::Vehicle => "Vehículo",
            ResourceType::Equipment => "Equipo",
            ResourceType::Other => "Otro",
        }
    }
}

/// Position of a project stage along the delivery pipeline; the cancelled
/// stage sits outside the pipeline.
pub open spec fn project_stage_index(s: ProjectStatus) -> int {
    match s {
        ProjectStatus::Pedidos => 0,
        ProjectStatus::Analisis => 1,
        ProjectStatus::Cotizado => 2,
        ProjectStatus::OrdenDeCompraMandada => 3,
        ProjectStatus::Ingenieria => 4,
        ProjectStatus::Produccion => 5,
        ProjectStatus::Calidad => 6,
        ProjectStatus::EsperandoEntrega => 7,
        ProjectStatus::Entregado => 8,
        ProjectStatus::Cancelado => -1,
    }
}

/// A stage is terminal when no further stage follows it.
pub open spec fn project_stage_is_terminal(s: ProjectStatus) -> bool {
    s == ProjectStatus::Entregado || s == ProjectStatus::Cancelado
}

impl ProjectStatus {
    /// The stage that follows this one, if any: every non-terminal stage
    /// advances by exactly one position along the pipeline.
    pub fn next(&self) -> (r: Option<Self>)
        ensures
            r is None <==> project_stage_is_terminal(*self),
            r matches Some(t) ==> project_stage_index(t) == project_stage_index(*self) + 1
                && t != ProjectStatus::Cancelado,
    {
        match self {
            ProjectStatus::Pedidos => Some(ProjectStatus::Analisis),
            ProjectStatus::Analisis => Some(ProjectStatus::Cotizado),
            ProjectStatus::Cotizado => Some(ProjectStatus::OrdenDeCompraMandada),
            ProjectStatus::OrdenDeCompraMandada => Some(ProjectStatus::Ingenieria),
            ProjectStatus::Ingenieria => Some(ProjectStatus::Produccion),
            ProjectStatus::Produccion => Some(ProjectStatus::Calidad),
            ProjectStatus::Calidad => Some(ProjectStatus::EsperandoEntrega),
            ProjectStatus::EsperandoEntrega => Some(ProjectStatus::Entregado),
            ProjectStatus::Entregado => None,
            ProjectStatus::Cancelado => None,
        }
    }
}

impl Default for ProjectPriority {
    fn default() -> (p: Self)
        ensures
            p == ProjectPriority::Medium,
    {
        ProjectPriority::Medium
    }
}

/// Seed user definition as stored in the users file (companies referenced by name).
#[derive(Debug, Clone)]
pub struct SeedUser {
    pub email: String,
    pub secret: String,
    /// Primary company by name.
    pub company: String,
    /// Additional companies by name.
    pub companies: Vec<String>,
    pub role: UserRole,
}

/// Default for boolean "active" flags of stored documents.
pub fn default_true() -> (b: bool)
    ensures
        b,
{
    true
}

/// Default currency of a company.
pub fn default_mxn() -> (s: String)
    ensures
        s@ == "MXN"@,
{
    String::from_str("MXN")
}

/// Default version of a recurring plan.
pub fn default_one() -> (v: i32)
    ensures
        v == 1,
{
    1
}

} // verus!
