//! The DeepL API.

use vstd::prelude::*;
use super::{
    mensagem, status_de_sucesso, vista_dos_textos, CorpoPedido, CorpoVisto, EventoHttp,
    PassoVisto, PedidoTraducao, PedidoVisto, ProximoPasso, TraducaoRecebida, vista_do_passo,
};
use crate::texto::{aparado, aparar, termina_com, termina_com_texto};

verus! {

/// The endpoint of free accounts.
pub open spec fn endpoint_free() -> Seq<char> {
    "https://api-free.deepl.com/v2/translate"@
}

/// The endpoint of Pro accounts.
pub open spec fn endpoint_pro() -> Seq<char> {
    "https://api.deepl.com/v2/translate"@
}

/// The endpoint for an API key: free account keys end in `:fx`, ignoring
/// surrounding whitespace.
pub open spec fn endpoint_da_chave(api_key: Seq<char>) -> Seq<char> {
    if termina_com(aparado(api_key), ":fx"@) {
        endpoint_free()
    } else {
        endpoint_pro()
    }
}

/// The free endpoint is used exactly for the keys that, without their
/// surrounding whitespace, end in `:fx`; every other key uses the Pro one.
pub proof fn lei_endpoint(api_key: Seq<char>)
    ensures
        ({
            let k = aparado(api_key);
            k.len() >= 3 && k[k.len() - 3] == ':' && k[k.len() - 2] == 'f' && k[k.len() - 1] == 'x'
        }) ==> endpoint_da_chave(api_key) == "https://api-free.deepl.com/v2/translate"@,
        !({
            let k = aparado(api_key);
            k.len() >= 3 && k[k.len() - 3] == ':' && k[k.len() - 2] == 'f' && k[k.len() - 1] == 'x'
        }) ==> endpoint_da_chave(api_key) == "https://api.deepl.com/v2/translate"@,
{
    reveal_strlit(":fx");
    let k = aparado(api_key);
    if k.len() >= 3 {
        let fim = k.subrange(k.len() - 3, k.len() as int);
        if fim == ":fx"@ {
            assert(fim[0] == k[k.len() - 3]);
            assert(fim[1] == k[k.len() - 2]);
            assert(fim[2] == k[k.len() - 1]);
        }
        if k[k.len() - 3] == ':' && k[k.len() - 2] == 'f' && k[k.len() - 1] == 'x' {
            assert(fim =~= ":fx"@);
        }
    }
}

/// A DeepL request goes to the key's endpoint, authenticates with
/// `DeepL-Auth-Key` followed by the key, and asks for the one text in the
/// given target language.
pub proof fn lei_pedido_deepl(texto: Seq<char>, idioma_destino: Seq<char>, api_key: Seq<char>)
    ensures
        pedido_deepl(texto, idioma_destino, api_key).url == endpoint_da_chave(api_key),
        pedido_deepl(texto, idioma_destino, api_key).cabecalhos == seq![
            ("Authorization"@, "DeepL-Auth-Key "@ + api_key),
        ],
        pedido_deepl(texto, idioma_destino, api_key).corpo == (CorpoVisto::DeepL {
            text: seq![texto],
            target_lang: idioma_destino,
        }),
{
}

/// Free DeepL accounts use another endpoint than Pro accounts; the key of
/// a free account always ends in `:fx`.
pub fn endpoint(api_key: &str) -> (r: &'static str)
    ensures
        r@ == endpoint_da_chave(api_key@),
{
    if termina_com_texto(aparar(api_key), ":fx") {
        "https://api-free.deepl.com/v2/translate"
    } else {
        "https://api.deepl.com/v2/translate"
    }
}

/// The request that translates `texto` into the DeepL language code
/// `idioma_destino`.
pub open spec fn pedido_deepl(texto: Seq<char>, idioma_destino: Seq<char>, api_key: Seq<char>) -> PedidoVisto {
    PedidoVisto {
        url: endpoint_da_chave(api_key),
        cabecalhos: seq![("Authorization"@, "DeepL-Auth-Key "@ + api_key)],
        corpo: CorpoVisto::DeepL { text: seq![texto], target_lang: idioma_destino },
    }
}

/// Builds the request that translates `texto` into `idioma_destino`.
pub fn montar_pedido(texto: &str, idioma_destino: &str, api_key: &str) -> (r: PedidoTraducao)
    ensures
        r@ == pedido_deepl(texto@, idioma_destino@, api_key@),
{
    let mut cabecalhos: Vec<(String, String)> = Vec::new();
    cabecalhos.push((String::from_str("Authorization"), mensagem("DeepL-Auth-Key ", api_key)));
    let mut text: Vec<String> = Vec::new();
    text.push(String::from_str(texto));
    let r = PedidoTraducao {
        url: String::from_str(endpoint(api_key)),
        cabecalhos,
        corpo: CorpoPedido::DeepL { text, target_lang: String::from_str(idioma_destino) },
    };
    assert(r@.cabecalhos =~= seq![("Authorization"@, "DeepL-Auth-Key "@ + api_key@)]);
    assert(vista_dos_textos(text@) =~= seq![texto@]);
    r
}

/// A DeepL reply: `{"translations": [{"text": ".."}, ..]}`.
pub struct RespostaDeepL {
    pub translations: Vec<TraducaoRecebida>,
}

/// The message of a reply that is not a DeepL reply.
pub open spec fn resposta_inesperada(erro: Seq<char>) -> Seq<char> {
    "Resposta inesperada da API do DeepL: "@ + erro
}

/// The message of a reply without any translation.
pub open spec fn sem_traducao() -> Seq<char> {
    "Nenhuma tradução retornada pela API do DeepL"@
}

/// The translation in a decoded reply: the first one, or the message that
/// says what went wrong.
pub open spec fn traducao_extraida(analise: Result<RespostaDeepL, String>) -> Result<Seq<char>, Seq<char>> {
    match analise {
        Err(e) => Err(resposta_inesperada(e@)),
        Ok(r) => if r.translations@.len() > 0 {
            Ok(r.translations@[0].text@)
        } else {
            Err(sem_traducao())
        },
    }
}

/// The first translation of the reply body, decoded as JSON into
/// `RespostaDeepL` (or the decoder's error message).
pub fn extrair_traducao(analise: Result<RespostaDeepL, String>) -> (r: Result<String, String>)
    ensures
        super::vista_do_resultado(r) == traducao_extraida(analise),
{
    match analise {
        Err(e) => Err(mensagem("Resposta inesperada da API do DeepL: ", e.as_str())),
        Ok(resposta) => {
            if resposta.translations.len() > 0 {
                Ok(resposta.translations[0].text.clone())
            } else {
                Err(String::from_str("Nenhuma tradução retornada pela API do DeepL"))
            }
        },
    }
}

/// The next step of the exchange with DeepL after `evento`.
pub open spec fn passo_deepl(evento: EventoHttp<RespostaDeepL>) -> PassoVisto {
    match evento {
        EventoHttp::FalhaConexao(e) => PassoVisto::Concluir(
            Err("Falha ao conectar com o DeepL: "@ + e@),
        ),
        EventoHttp::Status { codigo, descricao } => if status_de_sucesso(codigo) {
            PassoVisto::LerCorpo
        } else {
            PassoVisto::Concluir(Err("Erro da API do DeepL: "@ + descricao@))
        },
        EventoHttp::FalhaLeitura(e) => PassoVisto::Concluir(
            Err("Falha ao ler resposta do DeepL: "@ + e@),
        ),
        EventoHttp::CorpoAnalisado(analise) => PassoVisto::Concluir(traducao_extraida(analise)),
    }
}

/// Decides the next step of a translation by DeepL: a failed connection,
/// an unsuccessful status or an unreadable body ends it with a message;
/// a successful status leads to reading the body, whose first translation
/// ends it.
pub fn proximo_passo(evento: EventoHttp<RespostaDeepL>) -> (r: ProximoPasso)
    ensures
        vista_do_passo(r) == passo_deepl(evento),
        (evento matches EventoHttp::Status { codigo, .. } ==> (r is LerCorpo <==> 200 <= codigo
            && codigo <= 299)),
        !(evento is Status) ==> r is Concluir,
{
    match evento {
        EventoHttp::FalhaConexao(e) => ProximoPasso::Concluir(
            Err(mensagem("Falha ao conectar com o DeepL: ", e.as_str())),
        ),
        EventoHttp::Status { codigo, descricao } => {
            if 200 <= codigo && codigo <= 299 {
                ProximoPasso::LerCorpo
            } else {
                ProximoPasso::Concluir(Err(mensagem("Erro da API do DeepL: ", descricao.as_str())))
            }
        },
        EventoHttp::FalhaLeitura(e) => ProximoPasso::Concluir(
            Err(mensagem("Falha ao ler resposta do DeepL: ", e.as_str())),
        ),
        EventoHttp::CorpoAnalisado(analise) => ProximoPasso::Concluir(extrair_traducao(analise)),
    }
}

/// The body is read exactly after a status of the success class (200 to
/// 299); any other status ends the exchange with the API's error.
pub proof fn lei_status_deepl(codigo: u16, descricao: String)
    ensures
        200 <= codigo <= 299 ==> passo_deepl((EventoHttp::Status { codigo, descricao }))
            is LerCorpo,
        !(200 <= codigo <= 299) ==> passo_deepl((EventoHttp::Status { codigo, descricao }))
            == PassoVisto::Concluir(Err("Erro da API do DeepL: "@ + descricao@)),
{
}

/// A failed connection or an unreadable body ends the exchange with an
/// error that carries the failure's message.
pub proof fn lei_falhas_deepl(erro: String)
    ensures
        passo_deepl(EventoHttp::FalhaConexao(erro)) == PassoVisto::Concluir(
            Err("Falha ao conectar com o DeepL: "@ + erro@),
        ),
        passo_deepl(EventoHttp::FalhaLeitura(erro)) == PassoVisto::Concluir(
            Err("Falha ao ler resposta do DeepL: "@ + erro@),
        ),
{
}

/// A decoded DeepL reply ends the exchange with its first translation; a
/// reply without one, or one that is not a DeepL reply, ends it with an
/// error.
pub proof fn lei_corpo_deepl(analise: Result<RespostaDeepL, String>)
    ensures
        analise matches Ok(resposta) ==> (resposta.translations@.len() > 0
            ==> passo_deepl(EventoHttp::CorpoAnalisado(analise)) == PassoVisto::Concluir(
            Ok(resposta.translations@[0].text@),
        )),
        analise matches Ok(resposta) ==> (resposta.translations@.len() == 0
            ==> passo_deepl(EventoHttp::CorpoAnalisado(analise)) == PassoVisto::Concluir(
            Err("Nenhuma tradução retornada pela API do DeepL"@),
        )),
        analise matches Err(e) ==> passo_deepl(EventoHttp::CorpoAnalisado(analise))
            == PassoVisto::Concluir(Err("Resposta inesperada da API do DeepL: "@ + e@)),
{
}

} // verus!
