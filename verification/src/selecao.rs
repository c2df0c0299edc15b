use vstd::prelude::*;
use crate::registro::{Versao, dominada, limite_listagem, ordenada_desc, selecao_valida};

verus! {

/// The position of a record with the greatest version key in `v`.
fn indice_maior(v: &Vec<Versao>) -> (r: usize)
    requires
        v@.len() > 0,
    ensures
        r < v@.len(),
        forall|j: int| 0 <= j < v@.len() ==> #[trigger] v@[j].versao <= v@[r as int].versao,
{
    let mut r: usize = 0;
    let mut k: usize = 1;
    while k < v.len()
        invariant
            r < v@.len(),
            1 <= k <= v@.len(),
            forall|j: int| 0 <= j < k ==> #[trigger] v@[j].versao <= v@[r as int].versao,
        decreases v@.len() - k,
    {
        if v[k].versao > v[r].versao {
            r = k;
        }
        k = k + 1;
    }
    r
}

/// Picks the listing out of an unordered batch of records: the
/// `limite_listagem()` records with the highest version keys (all of them
/// when the batch is smaller), in descending order of version key.
pub fn top_versoes(linhas: Vec<Versao>) -> (saida: Vec<Versao>)
    ensures
        selecao_valida(linhas@, saida@),
{
    broadcast use vstd::seq_lib::group_to_multiset_ensures;
    broadcast use vstd::multiset::group_multiset_axioms;

    let ghost entrada: Seq<Versao> = linhas@;
    let mut resto = linhas;
    let mut saida: Vec<Versao> = Vec::new();
    while resto.len() > 0 && saida.len() < 10
        invariant
            saida@.to_multiset().add(resto@.to_multiset()) == entrada.to_multiset(),
            saida@.len() + resto@.len() == entrada.len(),
            saida@.len() <= limite_listagem(),
            ordenada_desc(saida@),
            forall|j: int| 0 <= j < resto@.len() ==> dominada(saida@, #[trigger] resto@[j]),
        decreases resto@.len(),
    {
        let melhor = indice_maior(&resto);
        let ghost resto_antes = resto@;
        let ghost saida_antes = saida@;
        let alvo = resto.remove(melhor);
        proof {
            broadcast use vstd::seq_lib::group_to_multiset_ensures;
            broadcast use vstd::multiset::group_multiset_axioms;

            assert(resto_antes.remove(melhor as int).to_multiset() =~= resto_antes.to_multiset()
                .remove(alvo));
            assert(saida@.to_multiset().insert(alvo).add(resto@.to_multiset())
                =~= saida_antes.to_multiset().add(resto_antes.to_multiset()));
        }
        saida.push(alvo);
        proof {
            broadcast use vstd::seq_lib::group_to_multiset_ensures;
            broadcast use vstd::multiset::group_multiset_axioms;

            assert(saida@.to_multiset() =~= saida_antes.to_multiset().insert(alvo));
            assert(saida@.to_multiset().add(resto@.to_multiset()) =~= entrada.to_multiset());
            assert(ordenada_desc(saida@)) by {
                assert(forall|i: int|
                    0 <= i < saida_antes.len() ==> alvo.versao <= #[trigger] saida_antes[i].versao);
            }
            assert(forall|j: int| 0 <= j < resto@.len() ==> dominada(saida@, #[trigger] resto@[j]))
                by {
                assert(forall|j: int|
                    0 <= j < resto@.len() ==> #[trigger] resto@[j].versao <= alvo.versao) by {
                    assert(forall|j: int| 0 <= j < melhor ==> #[trigger] resto@[j]
                        == resto_antes[j]);
                    assert(forall|j: int|
                        melhor <= j < resto@.len() ==> #[trigger] resto@[j] == resto_antes[j + 1]);
                }
            }
        }
    }
    proof {
        assert(resto@.len() == 0 ==> resto@.to_multiset().len() == 0);
        if resto@.len() == 0 {
            assert(saida@.to_multiset().add(resto@.to_multiset()) =~= saida@.to_multiset());
        }
        assert(forall|x: Versao|
            #[trigger] saida@.to_multiset().count(x) < entrada.to_multiset().count(x) ==> dominada(
                saida@,
                x,
            )) by {
            assert forall|x: Versao|
                #[trigger] saida@.to_multiset().count(x) < entrada.to_multiset().count(
                    x,
                ) implies dominada(saida@, x) by {
                assert(resto@.to_multiset().count(x) > 0);
                assert(resto@.contains(x));
                let j = choose|j: int| 0 <= j < resto@.len() && resto@[j] == x;
                assert(dominada(saida@, resto@[j]));
            }
        }
    }
    saida
}

} // verus!
