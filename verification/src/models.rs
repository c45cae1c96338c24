//! The data model of the platform outside the stores: the public profile of
//! a user, the bodies of the authentication requests and replies, and the
//! records of clubs, courses and lessons.

use crate::credentials::{AuthUser, AuthUserView};
use crate::error::{message_of, AuthError};
use crate::sessions::Session;
use crate::text::{copy_text_opt, text_opt};
use vstd::prelude::*;

verus! {

/// The public profile of a user: a credential record without its secrets.
/// Times are seconds since the Unix epoch.
#[derive(Debug)]
pub struct User {
    pub id: String,
    pub email: String,
    pub name: String,
    pub avatar: Option<String>,
    pub created_at: u64,
    pub updated_at: u64,
    pub email_verified: bool,
    pub is_active: bool,
}

/// The mathematical value of a public profile.
pub struct UserView {
    pub id: Seq<char>,
    pub email: Seq<char>,
    pub name: Seq<char>,
    pub avatar: Option<Seq<char>>,
    pub created_at: u64,
    pub updated_at: u64,
    pub email_verified: bool,
    pub is_active: bool,
}

impl View for User {
    type V = UserView;

    open spec fn view(&self) -> UserView {
        UserView {
            id: self.id@,
            email: self.email@,
            name: self.name@,
            avatar: text_opt(self.avatar),
            created_at: self.created_at,
            updated_at: self.updated_at,
            email_verified: self.email_verified,
            is_active: self.is_active,
        }
    }
}

impl Clone for User {
    fn clone(&self) -> (r: Self)
        ensures
            r == *self,
    {
        User {
            id: self.id.clone(),
            email: self.email.clone(),
            name: self.name.clone(),
            avatar: copy_text_opt(&self.avatar),
            created_at: self.created_at,
            updated_at: self.updated_at,
            email_verified: self.email_verified,
            is_active: self.is_active,
        }
    }
}

/// The public profile of a credential record.
pub open spec fn profile_of(u: AuthUserView) -> UserView {
    UserView {
        id: u.id,
        email: u.email,
        name: u.name,
        avatar: u.avatar,
        created_at: u.created_at,
        updated_at: u.updated_at,
        email_verified: u.email_verified,
        is_active: u.is_active,
    }
}

impl User {
    /// The public profile of a credential record: the password hash, the
    /// failure counter and the lock stay behind.
    pub fn from_record(u: &AuthUser) -> (r: User)
        ensures
            r@ == profile_of(u@),
    {
        User {
            id: u.id.clone(),
            email: u.email.clone(),
            name: u.name.clone(),
            avatar: copy_text_opt(&u.avatar),
            created_at: u.created_at,
            updated_at: u.updated_at,
            email_verified: u.email_verified,
            is_active: u.is_active,
        }
    }
}

/// A row of the e-mail verification table.
#[derive(Clone)]
pub struct EmailVerification {
    pub id: String,
    pub user_id: String,
    pub token: String,
    pub email: String,
    pub expires_at: u64,
    pub created_at: u64,
}

/// A row of the password reset table.
#[derive(Clone)]
pub struct PasswordReset {
    pub id: String,
    pub user_id: String,
    pub token: String,
    pub expires_at: u64,
    pub created_at: u64,
    pub used_at: Option<u64>,
}

/// The link between an account and an identity at a social provider.
#[derive(Clone, Debug)]
pub struct SocialAccount {
    pub id: String,
    pub user_id: String,
    pub provider: SocialProvider,
    pub provider_id: String,
    pub email: String,
    pub name: String,
    pub avatar: Option<String>,
    pub access_token: String,
    pub refresh_token: Option<String>,
    pub expires_at: Option<String>,
    pub created_at: String,
    pub updated_at: String,
}

#[derive(Clone, Debug)]
pub enum SocialProvider {
    Google,
    GitHub,
    Microsoft,
    Discord,
}

#[derive(Clone)]
pub struct Club {
    pub id: String,
    pub name: String,
    pub description: Option<String>,
    pub avatar: Option<String>,
    pub created_at: String,
    pub updated_at: String,
    pub owner_id: String,
}

#[derive(Clone)]
pub enum MemberRole {
    Admin,
    Member,
}

pub struct Member {
    pub id: String,
    pub user_id: String,
    pub club_id: String,
    pub role: MemberRole,
    pub joined_at: String,
    pub user: User,
}

#[derive(Clone)]
pub struct InviteCode {
    pub code: String,
    pub club_id: String,
    pub created_by: String,
    pub expires_at: String,
    pub used_by: Option<String>,
    pub used_at: Option<String>,
}

#[derive(Clone)]
pub struct Event {
    pub id: String,
    pub club_id: String,
    pub title: String,
    pub description: String,
    pub date: String,
    pub location: Option<String>,
    pub created_by: String,
    pub created_at: String,
}

#[derive(Clone)]
pub struct Announcement {
    pub id: String,
    pub club_id: String,
    pub title: String,
    pub content: String,
    pub created_by: String,
    pub created_at: String,
    pub pinned: bool,
}

#[derive(Clone)]
pub enum ProjectStatus {
    Planning,
    Active,
    Completed,
    OnHold,
}

#[derive(Clone)]
pub struct Project {
    pub id: String,
    pub club_id: String,
    pub name: String,
    pub description: String,
    pub status: ProjectStatus,
    pub created_by: String,
    pub created_at: String,
    pub updated_at: String,
}

/// A project as the project pages show it.
#[derive(Debug, Clone)]
pub struct ProjectExtended {
    pub id: String,
    pub name: String,
    pub description: String,
    pub club_id: String,
    pub owner_id: String,
    pub owner_name: String,
    pub status: String,
    pub tech_stack: Vec<String>,
    pub github_url: Option<String>,
    pub demo_url: Option<String>,
    pub contributors: Vec<Contributor>,
    pub tasks_total: u32,
    pub tasks_completed: u32,
    pub stars_count: u32,
    pub is_starred: bool,
    pub is_member: bool,
    pub created_at: String,
    pub updated_at: String,
}

#[derive(Debug, Clone)]
pub struct Contributor {
    pub id: String,
    pub name: String,
    pub avatar_url: Option<String>,
    pub role: String,
    pub contributions: u32,
}

#[derive(Debug)]
pub struct ProjectActivity {
    pub id: String,
    pub project_id: String,
    pub project_name: String,
    pub user_id: String,
    pub user_name: String,
    pub action: String,
    pub details: String,
    pub created_at: String,
}

#[derive(Debug)]
pub struct ProjectStats {
    pub total_projects: u32,
    pub active_projects: u32,
    pub completed_projects: u32,
    pub total_contributors: u32,
    pub total_tasks: u32,
    pub completed_tasks: u32,
}

pub struct CreateAnnouncementRequest {
    pub club_id: String,
    pub title: String,
    pub content: String,
    pub pinned: bool,
}

pub struct CreateEventRequest {
    pub club_id: String,
    pub title: String,
    pub description: String,
    pub date: String,
    pub location: Option<String>,
}

#[derive(Debug, Clone)]
pub struct Course {
    pub id: String,
    pub title: String,
    pub description: String,
    pub club_id: String,
    pub is_published: bool,
    pub difficulty: CourseDifficulty,
    /// In minutes.
    pub estimated_duration: u32,
    /// The id of the admin who created the course.
    pub created_by: String,
    pub created_at: String,
    pub updated_at: String,
    pub lessons: Vec<Lesson>,
}

#[derive(Debug, Clone)]
pub enum CourseDifficulty {
    Beginner,
    Intermediate,
    Advanced,
}

#[derive(Debug, Clone)]
pub struct Lesson {
    pub id: String,
    pub course_id: String,
    pub title: String,
    pub description: String,
    pub content: LessonContent,
    pub order: u32,
    pub is_published: bool,
    /// In minutes.
    pub estimated_duration: u32,
    pub created_at: String,
    pub updated_at: String,
}

#[derive(Debug, Clone)]
pub struct LessonContent {
    /// HTML or markdown.
    pub rich_text: Option<String>,
    pub video_url: Option<String>,
    pub video_embed_id: Option<String>,
    pub code_snippets: Option<Vec<CodeSnippet>>,
    pub resources: Option<Vec<Resource>>,
}

#[derive(Debug, Clone)]
pub struct CodeSnippet {
    pub id: String,
    pub language: String,
    pub code: String,
    pub title: Option<String>,
    pub description: Option<String>,
}

#[derive(Debug, Clone)]
pub struct Resource {
    pub id: String,
    pub title: String,
    pub description: Option<String>,
    pub resource_type: ResourceType,
    pub url: String,
    /// In bytes.
    pub file_size: Option<u64>,
    pub mime_type: Option<String>,
    pub created_at: String,
}

#[derive(Debug, Clone)]
pub enum ResourceType {
    File,
    Link,
    Document,
}

#[derive(Debug, Clone)]
pub struct LessonProgress {
    pub user_id: String,
    pub lesson_id: String,
    pub is_completed: bool,
    /// In minutes.
    pub time_spent: u32,
    pub completed_at: Option<String>,
    pub last_accessed_at: String,
}

#[derive(Debug)]
pub struct SignupRequest {
    pub email: String,
    pub password: String,
    pub name: String,
}

#[derive(Debug)]
pub struct LoginRequest {
    pub email: String,
    pub password: String,
}

#[derive(Debug)]
pub struct ForgotPasswordRequest {
    pub email: String,
}

#[derive(Debug)]
pub struct ResetPasswordRequest {
    pub token: String,
    pub new_password: String,
}

#[derive(Debug)]
pub struct ChangePasswordRequest {
    pub current_password: String,
    pub new_password: String,
}

#[derive(Debug)]
pub struct UpdateProfileRequest {
    pub name: Option<String>,
    pub email: Option<String>,
}

#[derive(Debug)]
pub struct VerifyEmailRequest {
    pub token: String,
}

#[derive(Debug)]
pub struct SocialLoginRequest {
    pub provider: SocialProvider,
    pub access_token: String,
    pub profile: SocialUserProfile,
}

#[derive(Debug)]
pub struct SocialUserProfile {
    pub id: String,
    pub email: String,
    pub name: String,
    pub avatar: Option<String>,
}

/// The body of a reply of the authentication endpoints. `expires_at` is in
/// seconds since the Unix epoch.
#[derive(Debug)]
pub struct AuthResponse {
    pub success: bool,
    pub user: Option<User>,
    pub token: Option<String>,
    pub expires_at: Option<u64>,
    pub error: Option<String>,
}

impl AuthResponse {
    /// The body of a reply that shows a profile and hands out no bearer
    /// token: the replies to a signup and to a request for the own profile.
    pub fn with_profile(user: User) -> (r: AuthResponse)
        ensures
            r.success,
            r.user == Some(user),
            r.token is None,
            r.expires_at is None,
            r.error is None,
    {
        AuthResponse { success: true, user: Some(user), token: None, expires_at: None, error: None }
    }

    /// The body of the reply to a login: the profile, the bearer token and
    /// its expiry.
    pub fn with_session(user: User, token: String, expires_at: u64) -> (r: AuthResponse)
        ensures
            r.success,
            r.user == Some(user),
            r.token == Some(token),
            r.expires_at == Some(expires_at),
            r.error is None,
    {
        AuthResponse {
            success: true,
            user: Some(user),
            token: Some(token),
            expires_at: Some(expires_at),
            error: None,
        }
    }

    /// The body of a reply that reports an error: the error's text and
    /// nothing else.
    pub fn failure(error: AuthError) -> (r: AuthResponse)
        ensures
            !r.success,
            r.user is None,
            r.token is None,
            r.expires_at is None,
            r.error matches Some(text) && text@ == message_of(error),
    {
        AuthResponse {
            success: false,
            user: None,
            token: None,
            expires_at: None,
            error: Some(error.message().to_owned()),
        }
    }
}

pub struct SessionInfo {
    pub user: User,
    pub session: Session,
}

pub struct CreateClubRequest {
    pub name: String,
    pub description: String,
}

pub struct JoinClubRequest {
    pub invite_code: String,
}

#[derive(Debug, Clone)]
pub struct CreateCourseRequest {
    pub title: String,
    pub description: String,
    pub club_id: String,
    pub difficulty: CourseDifficulty,
    pub estimated_duration: u32,
}

#[derive(Debug, Clone)]
pub struct CreateLessonRequest {
    pub course_id: String,
    pub title: String,
    pub description: String,
    pub content: LessonContent,
    pub estimated_duration: u32,
}

#[derive(Debug, Clone)]
pub struct UpdateProgressRequest {
    pub lesson_id: String,
    pub is_completed: bool,
    pub time_spent: u32,
}

#[derive(Debug, Clone)]
pub struct CoursesResponse {
    pub courses: Vec<Course>,
    pub total: u32,
    pub page: u32,
    pub limit: u32,
}

/// The envelope of every reply that is not an [`AuthResponse`]: either the
/// data or an error text.
#[derive(Debug)]
pub struct ApiResponse<T> {
    pub success: bool,
    pub data: Option<T>,
    pub error: Option<String>,
}

impl<T> ApiResponse<T> {
    /// A reply that carries data.
    pub fn success(data: T) -> (r: Self)
        ensures
            r.success,
            r.data == Some(data),
            r.error is None,
    {
        Self { success: true, data: Some(data), error: None }
    }

    /// A reply that carries an error text.
    pub fn error(error: String) -> (r: Self)
        ensures
            !r.success,
            r.data is None,
            r.error == Some(error),
    {
        Self { success: false, data: None, error: Some(error) }
    }
}

} // verus!
