//! The record kinds held by the store.
//!
//! Identifiers and `created_at` timestamps are caller-supplied opaque strings;
//! the store never generates or reuses them. Timestamps must use one
//! consistent format in which string comparison equals chronological
//! comparison. Numeric measures (heights, doses, macro values, glucose
//! values, targets) are carried as fixed-point integers: the caller picks one
//! scale per field and sticks to it, so the store never touches
//! floating-point arithmetic.

use vstd::prelude::*;

verus! {

/// A registered user. `email` is unique across the store; `password_hash` is
/// opaque credential material that the store only persists, never computes.
#[derive(Debug, PartialEq)]
pub struct User {
    pub id: String,
    pub username: String,
    pub email: String,
    pub phone: Option<String>,
    pub password_hash: String,
    pub created_at: String,
    pub birthday: Option<String>,
    pub gender: i32,
    pub height: i64,
    pub diabetes_type: i32,
    pub diagnosis_date: Option<String>,
    pub treatment_plan: i32,
    pub target_weight: Option<i64>,
    pub target_hb_a1c: Option<i64>,
    pub target_calories: Option<i64>,
    pub target_carbohydrates: Option<i64>,
}

/// One logged meal or food item belonging to a user.
#[derive(Debug, PartialEq)]
pub struct FoodEntry {
    pub id: String,
    pub user_id: String,
    pub created_at: String,
    pub meal_type: i32,
    pub meal_time: String,
    pub food_name: String,
    pub quantity: i64,
    pub calories: i64,
    pub carbohydrates: i64,
    pub protein: i64,
    pub fat: i64,
    pub gi: Option<i64>,
    pub gl: Option<i64>,
    pub source: i32,
    pub image_path: Option<String>,
    pub notes: Option<String>,
}

/// One blood-glucose reading belonging to a user.
#[derive(Debug, PartialEq)]
pub struct BloodGlucose {
    pub id: String,
    pub user_id: String,
    pub created_at: String,
    pub value: i64,
    pub measurement_time: i32,
    pub measurement_time_exact: Option<String>,
    pub before_meal_glucose: Option<i64>,
    pub after_meal_glucose: Option<i64>,
    pub related_meal: Option<i32>,
    pub notes: Option<String>,
    pub device_name: Option<String>,
    pub device_serial: Option<String>,
}

/// One scheduled medication intake belonging to a user. `is_taken` starts
/// false and is flipped by the store's mark-taken transition, which also
/// records `actual_time`.
#[derive(Debug, PartialEq)]
pub struct Medication {
    pub id: String,
    pub user_id: String,
    pub created_at: String,
    pub drug_name: String,
    pub medication_type: i32,
    pub dose: i64,
    pub unit: String,
    pub timing: i32,
    pub insulin_type: Option<i32>,
    pub insulin_duration: Option<i32>,
    pub scheduled_time: String,
    pub actual_time: Option<String>,
    pub is_taken: bool,
    pub notes: Option<String>,
}

/// One message of the append-only chat log belonging to a user.
#[derive(Debug, PartialEq)]
pub struct ChatMessage {
    pub id: String,
    pub user_id: String,
    pub created_at: String,
    pub role: String,
    pub content: String,
    pub model: Option<String>,
}

/// What every stored record kind offers the query machinery: a unique id, an
/// owning user id, a sortable creation timestamp, and an exact copy.
pub trait StoreRecord: Sized {
    spec fn key(&self) -> Seq<char>;

    spec fn owner(&self) -> Seq<char>;

    spec fn stamp(&self) -> Seq<char>;

    fn key_ref(&self) -> (r: &str)
        ensures
            r@ == self.key(),
    ;

    fn owner_ref(&self) -> (r: &str)
        ensures
            r@ == self.owner(),
    ;

    fn stamp_ref(&self) -> (r: &str)
        ensures
            r@ == self.stamp(),
    ;

    fn duplicate(&self) -> (r: Self)
        ensures
            r == *self,
    ;
}

pub(crate) fn clone_opt_string(o: &Option<String>) -> (r: Option<String>)
    ensures
        r == *o,
{
    match o {
        Some(s) => Some(s.clone()),
        None => None,
    }
}

impl Clone for User {
    fn clone(&self) -> (r: Self)
        ensures
            r == *self,
    {
        User {
            id: self.id.clone(),
            username: self.username.clone(),
            email: self.email.clone(),
            phone: clone_opt_string(&self.phone),
            password_hash: self.password_hash.clone(),
            created_at: self.created_at.clone(),
            birthday: clone_opt_string(&self.birthday),
            gender: self.gender,
            height: self.height,
            diabetes_type: self.diabetes_type,
            diagnosis_date: clone_opt_string(&self.diagnosis_date),
            treatment_plan: self.treatment_plan,
            target_weight: self.target_weight,
            target_hb_a1c: self.target_hb_a1c,
            target_calories: self.target_calories,
            target_carbohydrates: self.target_carbohydrates,
        }
    }
}

impl Clone for FoodEntry {
    fn clone(&self) -> (r: Self)
        ensures
            r == *self,
    {
        FoodEntry {
            id: self.id.clone(),
            user_id: self.user_id.clone(),
            created_at: self.created_at.clone(),
            meal_type: self.meal_type,
            meal_time: self.meal_time.clone(),
            food_name: self.food_name.clone(),
            quantity: self.quantity,
            calories: self.calories,
            carbohydrates: self.carbohydrates,
            protein: self.protein,
            fat: self.fat,
            gi: self.gi,
            gl: self.gl,
            source: self.source,
            image_path: clone_opt_string(&self.image_path),
            notes: clone_opt_string(&self.notes),
        }
    }
}

impl Clone for BloodGlucose {
    fn clone(&self) -> (r: Self)
        ensures
            r == *self,
    {
        BloodGlucose {
            id: self.id.clone(),
            user_id: self.user_id.clone(),
            created_at: self.created_at.clone(),
            value: self.value,
            measurement_time: self.measurement_time,
            measurement_time_exact: clone_opt_string(&self.measurement_time_exact),
            before_meal_glucose: self.before_meal_glucose,
            after_meal_glucose: self.after_meal_glucose,
            related_meal: self.related_meal,
            notes: clone_opt_string(&self.notes),
            device_name: clone_opt_string(&self.device_name),
            device_serial: clone_opt_string(&self.device_serial),
        }
    }
}

impl Clone for Medication {
    fn clone(&self) -> (r: Self)
        ensures
            r == *self,
    {
        Medication {
            id: self.id.clone(),
            user_id: self.user_id.clone(),
            created_at: self.created_at.clone(),
            drug_name: self.drug_name.clone(),
            medication_type: self.medication_type,
            dose: self.dose,
            unit: self.unit.clone(),
            timing: self.timing,
            insulin_type: self.insulin_type,
            insulin_duration: self.insulin_duration,
            scheduled_time: self.scheduled_time.clone(),
            actual_time: clone_opt_string(&self.actual_time),
            is_taken: self.is_taken,
            notes: clone_opt_string(&self.notes),
        }
    }
}

impl Clone for ChatMessage {
    fn clone(&self) -> (r: Self)
        ensures
            r == *self,
    {
        ChatMessage {
            id: self.id.clone(),
            user_id: self.user_id.clone(),
            created_at: self.created_at.clone(),
            role: self.role.clone(),
            content: self.content.clone(),
            model: clone_opt_string(&self.model),
        }
    }
}

impl StoreRecord for User {
    open spec fn key(&self) -> Seq<char> {
        self.id@
    }

    open spec fn owner(&self) -> Seq<char> {
        self.id@
    }

    open spec fn stamp(&self) -> Seq<char> {
        self.created_at@
    }

    fn key_ref(&self) -> (r: &str)
        ensures
            r@ == self.key(),
    {
        self.id.as_str()
    }

    fn owner_ref(&self) -> (r: &str)
        ensures
            r@ == self.owner(),
    {
        self.id.as_str()
    }

    fn stamp_ref(&self) -> (r: &str)
        ensures
            r@ == self.stamp(),
    {
        self.created_at.as_str()
    }

    fn duplicate(&self) -> (r: Self)
        ensures
            r == *self,
    {
        self.clone()
    }
}

impl StoreRecord for FoodEntry {
    open spec fn key(&self) -> Seq<char> {
        self.id@
    }

    open spec fn owner(&self) -> Seq<char> {
        self.user_id@
    }

    open spec fn stamp(&self) -> Seq<char> {
        self.created_at@
    }

    fn key_ref(&self) -> (r: &str)
        ensures
            r@ == self.key(),
    {
        self.id.as_str()
    }

    fn owner_ref(&self) -> (r: &str)
        ensures
            r@ == self.owner(),
    {
        self.user_id.as_str()
    }

    fn stamp_ref(&self) -> (r: &str)
        ensures
            r@ == self.stamp(),
    {
        self.created_at.as_str()
    }

    fn duplicate(&self) -> (r: Self)
        ensures
            r == *self,
    {
        self.clone()
    }
}

impl StoreRecord for BloodGlucose {
    open spec fn key(&self) -> Seq<char> {
        self.id@
    }

    open spec fn owner(&self) -> Seq<char> {
        self.user_id@
    }

    open spec fn stamp(&self) -> Seq<char> {
        self.created_at@
    }

    fn key_ref(&self) -> (r: &str)
        ensures
            r@ == self.key(),
    {
        self.id.as_str()
    }

    fn owner_ref(&self) -> (r: &str)
        ensures
            r@ == self.owner(),
    {
        self.user_id.as_str()
    }

    fn stamp_ref(&self) -> (r: &str)
        ensures
            r@ == self.stamp(),
    {
        self.created_at.as_str()
    }

    fn duplicate(&self) -> (r: Self)
        ensures
            r == *self,
    {
        self.clone()
    }
}

impl StoreRecord for Medication {
    open spec fn key(&self) -> Seq<char> {
        self.id@
    }

    open spec fn owner(&self) -> Seq<char> {
        self.user_id@
    }

    open spec fn stamp(&self) -> Seq<char> {
        self.created_at@
    }

    fn key_ref(&self) -> (r: &str)
        ensures
            r@ == self.key(),
    {
        self.id.as_str()
    }

    fn owner_ref(&self) -> (r: &str)
        ensures
            r@ == self.owner(),
    {
        self.user_id.as_str()
    }

    fn stamp_ref(&self) -> (r: &str)
        ensures
            r@ == self.stamp(),
    {
        self.created_at.as_str()
    }

    fn duplicate(&self) -> (r: Self)
        ensures
            r == *self,
    {
        self.clone()
    }
}

impl StoreRecord for ChatMessage {
    open spec fn key(&self) -> Seq<char> {
        self.id@
    }

    open spec fn owner(&self) -> Seq<char> {
        self.user_id@
    }

    open spec fn stamp(&self) -> Seq<char> {
        self.created_at@
    }

    fn key_ref(&self) -> (r: &str)
        ensures
            r@ == self.key(),
    {
        self.id.as_str()
    }

    fn owner_ref(&self) -> (r: &str)
        ensures
            r@ == self.owner(),
    {
        self.user_id.as_str()
    }

    fn stamp_ref(&self) -> (r: &str)
        ensures
            r@ == self.stamp(),
    {
        self.created_at.as_str()
    }

    fn duplicate(&self) -> (r: Self)
        ensures
            r == *self,
    {
        self.clone()
    }
}

} // verus!
