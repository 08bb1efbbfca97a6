//! Cost expressions: linear forms `c0 + c1 * v1 + ...` over the gas
//! variables of a program.
//!
//! A `CostExpr` keeps the terms that it was built from. Its view is the linear
//! form in which like variables are combined and terms with the coefficient
//! zero are dropped: two expressions are the same cost if their views are equal.

use vstd::prelude::*;
use crate::cost_token::CostTokenType;
use crate::sierra::ids::StatementIdx;

verus! {

/// A gas variable.
#[derive(Copy, Clone, Debug, Hash, PartialEq, Eq, Structural)]
pub enum Var {
    /// The amount that the libfunc at a statement deducts for a token.
    LibfuncImplicitGasVariable(StatementIdx, CostTokenType),
    /// The cost of a token from a statement to the end of its function.
    StatementFuture(StatementIdx, CostTokenType),
}

/// A linear form over the gas variables: a constant, and for each variable
/// with a coefficient other than zero, that coefficient.
pub struct LinearForm {
    pub constant: int,
    pub coefficients: Map<Var, int>,
}

impl LinearForm {
    /// The coefficient of a variable; zero for a variable that does not occur.
    pub open spec fn coefficient(self, var: Var) -> int {
        if self.coefficients.contains_key(var) {
            self.coefficients[var]
        } else {
            0
        }
    }

    /// No variable occurs with the coefficient zero.
    pub open spec fn normal(self) -> bool {
        forall|var: Var| self.coefficients.contains_key(var) ==> self.coefficients[var] != 0
    }

    /// The form zero.
    pub open spec fn zero() -> LinearForm {
        LinearForm { constant: 0, coefficients: Map::empty() }
    }

    /// The constant form.
    pub open spec fn from_const(value: int) -> LinearForm {
        LinearForm { constant: value, coefficients: Map::empty() }
    }

    /// The form of one variable.
    pub open spec fn from_var(var: Var) -> LinearForm {
        LinearForm { constant: 0, coefficients: Map::empty().insert(var, 1int) }
    }

    /// The sum of two forms.
    pub open spec fn add(self, other: LinearForm) -> LinearForm {
        LinearForm {
            constant: self.constant + other.constant,
            coefficients: Map::new(
                |var: Var| self.coefficient(var) + other.coefficient(var) != 0,
                |var: Var| self.coefficient(var) + other.coefficient(var),
            ),
        }
    }

    /// The difference of two forms.
    pub open spec fn sub(self, other: LinearForm) -> LinearForm {
        LinearForm {
            constant: self.constant - other.constant,
            coefficients: Map::new(
                |var: Var| self.coefficient(var) - other.coefficient(var) != 0,
                |var: Var| self.coefficient(var) - other.coefficient(var),
            ),
        }
    }

    /// Whether two forms are the same once like variables are combined and
    /// terms with the coefficient zero are dropped: the same constant, and the
    /// same coefficient for every variable.
    pub open spec fn same(self, other: LinearForm) -> bool {
        self.constant == other.constant && forall|var: Var|
            self.coefficient(var) == other.coefficient(var)
    }

    /// A form less itself is zero.
    pub proof fn lemma_sub_self(a: LinearForm)
        ensures
            a.sub(a).same(Self::zero()),
    {
    }

    /// A form that is added to the rest of another form less it gives the
    /// other form.
    pub proof fn lemma_add_sub_cancel(a: LinearForm, b: LinearForm)
        ensures
            b.add(a.sub(b)).same(a),
    {
    }

    /// A form to which the rest of itself less another form is added is the
    /// same form exactly if the other form is the same.
    pub proof fn lemma_add_sub_same(a: LinearForm, b: LinearForm)
        ensures
            a.add(a.sub(b)).same(a) <==> a.same(b),
    {
    }

    /// Sums and differences of forms that are the same are the same.
    pub proof fn lemma_same_congruence(a: LinearForm, b: LinearForm, c: LinearForm, d: LinearForm)
        requires
            a.same(c),
            b.same(d),
        ensures
            a.add(b).same(c.add(d)),
            a.sub(b).same(c.sub(d)),
    {
    }
}

/// One term of a cost expression: a coefficient, of a variable or, without
/// one, of the constant.
#[derive(Copy, Clone, Debug, Hash, PartialEq, Eq, Structural)]
pub struct Term {
    pub var: Option<Var>,
    pub coefficient: i64,
}

/// The sum of the coefficients that the terms give to a variable, or to the
/// constant.
pub open spec fn coefficient_sum(terms: Seq<Term>, var: Option<Var>) -> int
    decreases terms.len(),
{
    if terms.len() == 0 {
        0
    } else {
        coefficient_sum(terms.drop_last(), var) + (if terms.last().var == var {
            terms.last().coefficient as int
        } else {
            0int
        })
    }
}

/// The sum of one term.
pub proof fn lemma_coefficient_sum_single(terms: Seq<Term>, var: Option<Var>)
    requires
        terms.len() == 1,
    ensures
        coefficient_sum(terms, var) == (if terms[0].var == var {
            terms[0].coefficient as int
        } else {
            0int
        }),
{
    assert(coefficient_sum(terms.drop_last(), var) == 0);
}

/// The sums of two lists of terms add up in the list of both.
pub proof fn lemma_coefficient_sum_concat(a: Seq<Term>, b: Seq<Term>, var: Option<Var>)
    ensures
        coefficient_sum(a + b, var) == coefficient_sum(a, var) + coefficient_sum(b, var),
    decreases b.len(),
{
    if b.len() > 0 {
        lemma_coefficient_sum_concat(a, b.drop_last(), var);
        assert((a + b).drop_last() =~= a + b.drop_last());
    }
}

/// The terms with the opposite coefficients.
pub open spec fn negated(terms: Seq<Term>) -> Seq<Term> {
    Seq::new(
        terms.len(),
        |i: int| Term { var: terms[i].var, coefficient: (-terms[i].coefficient) as i64 },
    )
}

/// The size of every coefficient is at most 2^31.
pub open spec fn bounded(terms: Seq<Term>) -> bool {
    forall|i: int|
        0 <= i < terms.len() ==> -0x8000_0000 <= (#[trigger] terms[i]).coefficient <= 0x8000_0000
}

/// The sums of the opposite terms are the opposite sums.
pub proof fn lemma_coefficient_sum_negated(terms: Seq<Term>, var: Option<Var>)
    requires
        bounded(terms),
    ensures
        coefficient_sum(negated(terms), var) == -coefficient_sum(terms, var),
    decreases terms.len(),
{
    if terms.len() > 0 {
        lemma_coefficient_sum_negated(terms.drop_last(), var);
        assert(negated(terms).drop_last() =~= negated(terms.drop_last()));
    }
}

/// Terms of which none is of a variable give the variable nothing.
pub proof fn lemma_coefficient_sum_absent(terms: Seq<Term>, var: Option<Var>)
    requires
        forall|i: int| 0 <= i < terms.len() ==> (#[trigger] terms[i]).var != var,
    ensures
        coefficient_sum(terms, var) == 0,
    decreases terms.len(),
{
    if terms.len() > 0 {
        assert(terms.last() == terms[terms.len() - 1]);
        assert forall|i: int| 0 <= i < terms.drop_last().len() implies (
        #[trigger] terms.drop_last()[i]).var != var by {
            assert(terms.drop_last()[i] == terms[i]);
        }
        lemma_coefficient_sum_absent(terms.drop_last(), var);
    }
}

/// The linear form of a list of terms.
pub open spec fn form_of(terms: Seq<Term>) -> LinearForm {
    LinearForm {
        constant: coefficient_sum(terms, None),
        coefficients: Map::new(
            |var: Var| coefficient_sum(terms, Some(var)) != 0,
            |var: Var| coefficient_sum(terms, Some(var)),
        ),
    }
}

/// A cost expression.
#[derive(Debug, PartialEq, Eq)]
pub struct CostExpr {
    terms: Vec<Term>,
}

impl View for CostExpr {
    type V = LinearForm;

    closed spec fn view(&self) -> LinearForm {
        form_of(self.terms@)
    }
}

impl Clone for CostExpr {
    fn clone(&self) -> (res: CostExpr)
        ensures
            res@ == self@,
    {
        proof {
            use_type_invariant(self);
        }
        let mut terms: Vec<Term> = Vec::new();
        let mut i: usize = 0;
        while i < self.terms.len()
            invariant
                i <= self.terms.len(),
                terms@ == self.terms@.take(i as int),
            decreases self.terms.len() - i,
        {
            terms.push(self.terms[i]);
            i = i + 1;
        }
        assert(self.terms@.take(i as int) =~= self.terms@);
        CostExpr { terms }
    }
}

impl CostExpr {
    #[verifier::type_invariant]
    spec fn well_formed(self) -> bool {
        bounded(self.terms@)
    }

    /// The view of every cost expression has no variable with the coefficient
    /// zero.
    pub proof fn lemma_view_normal(self)
        ensures
            self@.normal(),
    {
    }

    /// The expression zero.
    pub fn zero() -> (res: CostExpr)
        ensures
            res@.same(LinearForm::zero()),
    {
        CostExpr { terms: Vec::new() }
    }

    /// The constant expression.
    pub fn from_const(value: i32) -> (res: CostExpr)
        ensures
            res@.same(LinearForm::from_const(value as int)),
    {
        let mut terms: Vec<Term> = Vec::new();
        terms.push(Term { var: None, coefficient: value as i64 });
        proof {
            lemma_coefficient_sum_single(terms@, None);
            assert forall|var: Var| coefficient_sum(terms@, Some(var)) == 0 by {
                lemma_coefficient_sum_single(terms@, Some(var));
            }
        }
        CostExpr { terms }
    }

    /// The expression of one variable.
    pub fn from_var(var: Var) -> (res: CostExpr)
        ensures
            res@.same(LinearForm::from_var(var)),
    {
        let mut terms: Vec<Term> = Vec::new();
        terms.push(Term { var: Some(var), coefficient: 1 });
        proof {
            lemma_coefficient_sum_single(terms@, None);
            assert forall|other: Var| coefficient_sum(terms@, Some(other)) == (if other == var {
                1int
            } else {
                0int
            }) by {
                lemma_coefficient_sum_single(terms@, Some(other));
            }
        }
        CostExpr { terms }
    }

    /// The constant of the expression, for no variable, or the coefficient of
    /// the variable.
    pub fn coefficient_of(&self, var: Option<Var>) -> (res: i128)
        ensures
            res == match var {
                None => self@.constant,
                Some(var) => self@.coefficient(var),
            },
    {
        proof {
            use_type_invariant(self);
        }
        let mut sum: i128 = 0;
        let mut i: usize = 0;
        while i < self.terms.len()
            invariant
                i <= self.terms.len(),
                bounded(self.terms@),
                sum == coefficient_sum(self.terms@.take(i as int), var),
                -0x8000_0000 * i <= sum <= 0x8000_0000 * i,
            decreases self.terms.len() - i,
        {
            proof {
                assert(self.terms@.take(i as int + 1).drop_last() =~= self.terms@.take(i as int));
            }
            let term = self.terms[i];
            let same = match (term.var, var) {
                (None, None) => true,
                (Some(a), Some(b)) => a == b,
                _ => false,
            };
            if same {
                sum = sum + term.coefficient as i128;
            }
            i = i + 1;
        }
        assert(self.terms@.take(i as int) =~= self.terms@);
        sum
    }

    /// Whether the two expressions agree on what every term of `terms` is
    /// the coefficient of.
    fn agree_on(&self, other: &CostExpr, terms: &Vec<Term>) -> (res: bool)
        ensures
            res == forall|i: int|
                0 <= i < terms@.len() ==> coefficient_sum(self.terms@, (#[trigger] terms@[i]).var)
                    == coefficient_sum(other.terms@, terms@[i].var),
    {
        let mut i: usize = 0;
        while i < terms.len()
            invariant
                i <= terms@.len(),
                forall|k: int|
                    0 <= k < i ==> coefficient_sum(self.terms@, (#[trigger] terms@[k]).var)
                        == coefficient_sum(other.terms@, terms@[k].var),
            decreases terms@.len() - i,
        {
            let var = terms[i].var;
            proof {
                match var {
                    Some(v) => {
                        assert(self@.coefficient(v) == coefficient_sum(self.terms@, var));
                        assert(other@.coefficient(v) == coefficient_sum(other.terms@, var));
                    },
                    None => {},
                }
            }
            if self.coefficient_of(var) != other.coefficient_of(var) {
                return false;
            }
            i = i + 1;
        }
        true
    }

    /// Whether the two expressions are the same cost: the same once like
    /// variables are combined and terms with the coefficient zero are
    /// dropped.
    pub fn same(&self, other: &CostExpr) -> (res: bool)
        ensures
            res == self@.same(other@),
    {
        if self.coefficient_of(None) != other.coefficient_of(None) {
            return false;
        }
        let own = self.agree_on(other, &self.terms);
        let others = self.agree_on(other, &other.terms);
        proof {
            if own && others {
                assert forall|var: Var| self@.coefficient(var) == other@.coefficient(var) by {
                    let key = Some(var);
                    if exists|i: int| 0 <= i < self.terms@.len() && self.terms@[i].var == key {
                        let i = choose|i: int| 0 <= i < self.terms@.len() && self.terms@[i].var == key;
                        assert(coefficient_sum(self.terms@, self.terms@[i].var) == coefficient_sum(
                            other.terms@,
                            self.terms@[i].var,
                        ));
                    } else if exists|i: int| 0 <= i < other.terms@.len() && other.terms@[i].var == key {
                        let i = choose|i: int| 0 <= i < other.terms@.len() && other.terms@[i].var == key;
                        assert(coefficient_sum(self.terms@, other.terms@[i].var)
                            == coefficient_sum(other.terms@, other.terms@[i].var));
                    } else {
                        lemma_coefficient_sum_absent(self.terms@, key);
                        lemma_coefficient_sum_absent(other.terms@, key);
                    }
                }
            } else {
                let terms = if !own {
                    self.terms@
                } else {
                    other.terms@
                };
                let i = choose|i: int|
                    0 <= i < terms.len() && coefficient_sum(self.terms@, (#[trigger] terms[i]).var)
                        != coefficient_sum(other.terms@, terms[i].var);
                match terms[i].var {
                    Some(var) => {
                        assert(self@.coefficient(var) != other@.coefficient(var));
                    },
                    None => {},
                }
            }
        }
        own && others
    }

    /// The sum of two expressions.
    pub fn add(self, other: CostExpr) -> (res: CostExpr)
        ensures
            res@.same(self@.add(other@)),
    {
        proof {
            use_type_invariant(&self);
            use_type_invariant(&other);
        }
        let ghost left = self.terms@;
        let ghost right = other.terms@;
        let mut terms = self.terms;
        let mut rest = other.terms;
        terms.append(&mut rest);
        proof {
            lemma_coefficient_sum_concat(left, right, None);
            assert forall|var: Var| coefficient_sum(terms@, Some(var)) == coefficient_sum(
                left,
                Some(var),
            ) + coefficient_sum(right, Some(var)) by {
                lemma_coefficient_sum_concat(left, right, Some(var));
            }
        }
        CostExpr { terms }
    }

    /// The difference of two expressions.
    pub fn sub(self, other: CostExpr) -> (res: CostExpr)
        ensures
            res@.same(self@.sub(other@)),
    {
        proof {
            use_type_invariant(&self);
            use_type_invariant(&other);
        }
        let ghost left = self.terms@;
        let ghost right = other.terms@;
        let mut terms = self.terms;
        let mut i: usize = 0;
        while i < other.terms.len()
            invariant
                i <= other.terms.len(),
                right == other.terms@,
                bounded(right),
                bounded(left),
                terms@ == left + negated(right).take(i as int),
            decreases other.terms.len() - i,
        {
            let term = other.terms[i];
            terms.push(Term { var: term.var, coefficient: -term.coefficient });
            i = i + 1;
        }
        proof {
            assert(negated(right).take(i as int) =~= negated(right));
            lemma_coefficient_sum_concat(left, negated(right), None);
            lemma_coefficient_sum_negated(right, None);
            assert forall|var: Var| coefficient_sum(terms@, Some(var)) == coefficient_sum(
                left,
                Some(var),
            ) - coefficient_sum(right, Some(var)) by {
                lemma_coefficient_sum_concat(left, negated(right), Some(var));
                lemma_coefficient_sum_negated(right, Some(var));
            }
        }
        CostExpr { terms }
    }
}

} // verus!
